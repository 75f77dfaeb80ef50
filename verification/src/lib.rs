//! Text output on a linear framebuffer for a small x86_64 kernel: a cursor-driven
//! writer that renders pre-rasterized glyphs, the keyboard decisions that drive it,
//! and the interrupt vector numbering of the chained PICs.

pub mod font;
pub mod frame;
pub mod greetings;
pub mod interrupts;
pub mod keyboard;
pub mod keys;
pub mod laws;
pub mod user_defined;
pub mod writer;
