//! An emulator for a small 16-bit stored-program computer: eight general
//! registers, a program counter and a condition flag, a flat 65536-word
//! memory with a memory-mapped keyboard device, and a fetch-decode-execute
//! loop over a 4-bit opcode instruction set with character-I/O traps.
//!
//! All I/O is expressed over [`channel::ByteChannel`], a pair of in-memory
//! byte queues; an embedding binary is expected to connect those queues to
//! real devices.

pub mod channel;
pub mod instructions;
pub mod loader;
pub mod memory;
pub mod registers;
pub mod vm;
