//! A text-mode console driver: renders ASCII bytes into a fixed-size
//! character grid of memory-mapped video cells, with cursor advance,
//! line wrap, and vertical scrolling.

pub mod laws;
pub mod vga_buffer;
pub mod volatile_cell;

pub use vga_buffer::{Color, ColorCode, ScreenChar, Buffer, Writer};
pub use vga_buffer::{BUFFER_HEIGHT, BUFFER_WIDTH};
