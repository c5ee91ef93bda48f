//! A terminal-emulation buffer: it takes the raw bytes that a running process
//! writes, interprets the control codes among them, and keeps a bounded,
//! cursor-addressable store of text lines that a display can read by index.

pub mod buffer;
pub mod event;
pub mod interpreter;
pub mod laws;
pub mod screen;
pub mod text;
pub mod tokenizer;
