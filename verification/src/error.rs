use vstd::prelude::*;
use crate::validate::ValidationError;

verus! {

/// Why a byte sequence is not a well-formed, valid WebAssembly module.
#[derive(Debug, Clone, Copy, PartialEq, Eq, Structural)]
pub enum DecodeError {
    /// The input ended (or a section or body ended) in the middle of an item.
    UnexpectedEnd,
    /// The first four bytes are not `\0asm`.
    MagicHeaderNotDetected,
    /// The four bytes after the magic are not version 1.
    UnknownBinaryVersion,
    /// A LEB128 integer uses more bytes than its type allows.
    IntegerRepresentationTooLong,
    /// The last byte of a LEB128 integer sets bits that its type does not have.
    IntegerTooLarge,
    /// A section id above 11.
    MalformedSectionId,
    /// A section's contents do not end where its size says.
    SectionSizeMismatch,
    /// A non-custom section appears twice or after a section that must follow it.
    SectionOutOfOrder,
    /// A byte that is not one of the four value types.
    MalformedValueType,
    /// A function type that does not start with `0x60`.
    MalformedFunctionType,
    /// A block type that is neither `0x40` nor a value type.
    MalformedBlockType,
    /// An import descriptor tag above 3.
    MalformedImportKind,
    /// An export descriptor tag above 3.
    MalformedExportKind,
    /// A table element type other than `funcref` (`0x70`).
    MalformedElementType,
    /// A limits flag other than 0 or 1.
    MalformedLimitsFlag,
    /// A global mutability flag other than 0 or 1.
    MalformedMutability,
    /// A name that is not valid UTF-8.
    MalformedUtf8,
    /// An opcode that the MVP instruction set does not define.
    IllegalOpcode,
    /// The reserved byte of `call_indirect`, `memory.size` or `memory.grow` is not a single zero byte.
    ZeroFlagExpected,
    /// `else` outside of an `if` block, or a second `else`.
    UnexpectedElse,
    /// An initializer that is not a single constant instruction followed by `end`.
    ConstantExpressionRequired,
    /// The local declarations of a function add up to more than `u32::MAX` locals.
    TooManyLocals,
    /// A function body does not end where its size says.
    FunctionBodySizeMismatch,
    /// The function and code sections declare different numbers of functions.
    FunctionCodeCountMismatch,
    /// The module is well-formed but breaks a rule of validation.
    Invalid(ValidationError),
}

} // verus!
