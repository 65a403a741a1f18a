//! A loader and execution engine for a compact stack-based bytecode format.
//!
//! The library has two halves. The loader (`object`) decodes a binary object
//! file - a 32-byte content hash, a global-slot count, a string pool, a type
//! table, nine sections that this engine requires to be empty, and a raw
//! instruction stream - into an immutable [`object::Bytecode`]. The executor
//! (`machine`) owns all mutable runtime state and runs a fetch-decode-execute
//! loop over the instruction stream until the instruction pointer passes the
//! end of the stream or a fatal trap stops execution.

pub mod errors;
pub mod machine;
pub mod object;
pub mod vint;

pub use vint::get_vint;
