//! A verified instruction-set simulator for a 16-bit educational computer.
//!
//! The machine has a flat 64K-word memory, eight general-purpose registers,
//! a program counter and a condition-flag register.  Programs are loaded
//! from big-endian word images and executed by a fetch-decode-execute
//! engine whose every instruction is specified and proved here.  Console
//! input and output requested by trap instructions are returned to the
//! caller as explicit actions, so the engine itself stays pure.

pub mod bits;
pub mod image;
pub mod isa;
pub mod laws;
pub mod machine;
pub mod step;

pub use bits::sign_extend;
pub use image::read_image;
