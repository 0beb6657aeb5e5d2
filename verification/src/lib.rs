//! A verified CHIP-8 instruction interpreter.
//!
//! The core of the machine lives here: the 4096-byte memory with its built-in
//! glyph sprites, the decoded instruction word, the register/stack file, the
//! 64x32 monochrome framebuffer, and the fetch/decode/execute step with its
//! timer semantics. Every executable function carries a contract; the step
//! function is specified instruction by instruction against a mathematical
//! model of the machine state.
//!
//! Input polling, rendering, and the driver loop are thin adapters around
//! this library: they hand the interpreter a snapshot of the shared key
//! state, re-invoke the step, and carry the emitted frames and log lines to
//! their consumers.

pub mod cpu;
pub mod keys;
pub mod laws;
pub mod mem;
pub mod render;
