//! A verified virtual machine for a 16-bit word instruction set.
//!
//! The machine executes a loaded program image against a flat 32768-word
//! memory, eight registers mapped into the same numeric address space,
//! an unbounded operand stack, and a queue of pending input characters.
//! A single `step` call performs one fetch-decode-execute cycle and reports
//! whether the machine is still running, has halted gracefully, wants to
//! emit a character, or is blocked waiting for input; the caller performs
//! the actual I/O and feeds lines back in.

pub mod image;
pub mod laws;
pub mod machine;
pub mod model;
pub mod outcome;
