pub mod colors;
pub mod frame;
pub mod geometry;
pub mod ui_context;
