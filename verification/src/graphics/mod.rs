pub mod texture;
pub mod ui_renderer;
