//! Reads the build identifier out of a little-endian ELF64 image held in memory.

pub mod elf;
pub mod error;
pub mod hex;
pub mod laws;
pub mod le;
pub mod note;
