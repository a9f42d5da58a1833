//! A verified 16-bit virtual CPU core.
//!
//! The crate models a minimal fetch-decode-execute engine: a byte-addressable
//! memory, a fixed file of twelve 16-bit registers backed by bytes in
//! big-endian order, and a one-byte-opcode instruction set with
//! self-describing operand consumption. Every state change of the engine is
//! specified against a mathematical machine model ([`model`]) and proved.

pub mod cpu;
pub mod instructions;
pub mod laws;
pub mod memory;
pub mod model;
