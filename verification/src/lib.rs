pub mod graphics;
pub mod paint;
pub mod platform;
pub mod ui;
