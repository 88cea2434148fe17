//! A small register-based virtual machine and the binary instruction set it
//! executes.
//!
//! The crate is organised around three layers:
//! - the register file and the two word memories ([`registers`], [`memory`]),
//! - the instruction codec that maps 32-bit words to typed operations and
//!   back ([`instructions`], [`codec`], [`render`]),
//! - the execution engine that fetches, decodes and executes one instruction
//!   per step ([`machine`]).

pub mod codec;
pub mod instructions;
pub mod machine;
pub mod memory;
pub mod registers;
pub mod render;
