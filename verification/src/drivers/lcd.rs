//! The ST7789 display: command set, transport, drawing primitives, font.

pub mod font;
pub mod lcd;
pub mod lcd_api;
pub mod st7789;
pub mod staging;
