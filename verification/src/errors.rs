//! Error types of the two tiers: load-time format errors and run-time traps.

use vstd::prelude::*;

verus! {

/// A load-time format error. Loading aborts before any execution; the variant
/// says which field of the object file failed.
#[derive(Clone, Copy, Debug, PartialEq, Eq, Structural)]
pub enum LoadError {
    /// A variable-length integer ran past the end of the buffer.
    TruncatedVint,
    /// A variable-length integer does not fit in `usize`.
    VintTooLarge,
    /// The buffer is shorter than the 32-byte source hash.
    TruncatedHash,
    /// The declared string-pool length is larger than the remaining bytes.
    TruncatedPool,
    /// A string-pool entry is longer than the rest of the pool section.
    TruncatedString,
    /// A string-pool entry is not valid UTF-8.
    InvalidUtf8,
    /// A section that this engine requires to be empty has a nonzero declared
    /// length. The payload is the section's position among the nine, in order:
    /// constants, module variables, function table, exception exports,
    /// interface exports, imports, nested function table, exception table,
    /// class table.
    UnsupportedSection(usize),
}

/// A fatal run-time trap. Every trap halts execution immediately; the payload
/// is the code offset of the opcode byte that was executing.
#[derive(Clone, Copy, Debug, PartialEq, Eq, Structural)]
pub enum Trap {
    /// The opcode byte has no assigned meaning.
    InvalidOpcode(usize),
    /// The opcode is part of the format but has no realized handler in this
    /// engine.
    UnimplementedOpcode(usize),
    /// An inline operand ran past the end of the code or does not fit in
    /// `usize`.
    MalformedOperand(usize),
    /// A string-pool index operand is out of range.
    StringIndexOutOfRange(usize),
    /// A builtin name does not resolve to any function this engine provides.
    UnresolvedFunction(usize),
    /// An operand on the stack has the wrong kind for the instruction.
    TypeMismatch(usize),
    /// The instruction needed more operand-stack entries than there are.
    StackUnderflow(usize),
    /// A return was executed with an empty control stack.
    ControlStackUnderflow(usize),
}

} // verus!
