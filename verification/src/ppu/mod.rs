pub mod evaluation;
pub mod frame;
pub mod oam;
pub mod palette;
pub mod ports;
pub mod registers;
pub mod render;
pub mod shift;
pub mod sprite;
pub mod unit;
pub mod video;
pub mod vram;
