//! The data carried through one scan/resolve/emit invocation: size prefixes,
//! type-character families, resolved wire types, and structured scan errors.

use vstd::prelude::*;

verus! {

/// Size prefix of a conversion specification: `h`, `l` or `ll`.
#[derive(Clone, Copy, Debug, PartialEq, Eq)]
pub enum FSize {
    Short,
    Long,
    LongLong,
}

/// Family of a conversion type character.
#[derive(Clone, Copy, Debug, PartialEq, Eq)]
pub enum FType {
    Integer { signed: bool },
    Float,
    Char,
    Pointer,
    Str,
}

/// The fixed-width ABI type one conversion specification is lowered to for
/// the variadic device-runtime call.
#[derive(Clone, Copy, Debug, PartialEq, Eq)]
pub enum SizedType {
    I16,
    I32,
    I64,
    U16,
    U32,
    U64,
    Double,
    VoidPtr,
    StrPtr,
}

/// The reason a scan failed: a malformed specification, or a combination
/// that is deliberately rejected because it would lower to the wrong wire
/// width without a diagnostic.
#[derive(Clone, Copy, Debug, PartialEq, Eq)]
pub enum ScanErrorKind {
    /// `*` in the width position.
    VariableWidth,
    /// `*` in the precision position.
    VariablePrecision,
    /// The string ended before the type character.
    EndedEarly,
    /// The type character is not one of `c d i o u x X p e E f F g G a A s`.
    InvalidType,
    /// `h` size prefix on a signed integer specifier.
    ShortInt,
    /// `l` size prefix on a signed integer specifier.
    LongInt,
    /// `l` size prefix on an unsigned integer specifier.
    LongUnsignedInt,
    /// Any size prefix on a floating-point specifier.
    FloatSize,
    /// Any size prefix on `%c`.
    CharSize,
    /// Any size prefix on `%s`.
    StrSize,
    /// Any size prefix on `%p`.
    PointerSize,
}

/// A scan failure: the reason together with the byte span of the offending
/// text.  `end` is the inclusive offset of the last offending byte; it is
/// absent exactly when the string ended inside a specification.
#[derive(Clone, Copy, Debug, PartialEq, Eq)]
pub struct ParseError {
    pub kind: ScanErrorKind,
    pub start: usize,
    pub end: Option<usize>,
}

impl ScanErrorKind {
    /// The diagnostic text attached to this error kind.
    pub open spec fn spec_message(self) -> Seq<char> {
        match self {
            ScanErrorKind::VariableWidth => "variable width arguments are not yet supported"@,
            ScanErrorKind::VariablePrecision => "cuda does not support variable precision arguments"@,
            ScanErrorKind::EndedEarly => "ended early"@,
            ScanErrorKind::InvalidType => "Invalid type specifier"@,
            ScanErrorKind::ShortInt => "short int is unimplemented"@,
            ScanErrorKind::LongInt => "long int is not supported"@,
            ScanErrorKind::LongUnsignedInt => "long unsigned int is unimplemented"@,
            ScanErrorKind::FloatSize => "Size specifiers are not allowed for floating-point arguments"@,
            ScanErrorKind::CharSize => "Size specifiers are not allowed for char arguments"@,
            ScanErrorKind::StrSize => "Size specifiers are not allowed for str arguments"@,
            ScanErrorKind::PointerSize => "Size specifiers are not allowed for pointer arguments"@,
        }
    }

    /// The diagnostic text attached to this error kind.
    pub fn message(&self) -> (r: &'static str)
        ensures
            r@ == self.spec_message(),
    {
        match self {
            ScanErrorKind::VariableWidth => "variable width arguments are not yet supported",
            ScanErrorKind::VariablePrecision => "cuda does not support variable precision arguments",
            ScanErrorKind::EndedEarly => "ended early",
            ScanErrorKind::InvalidType => "Invalid type specifier",
            ScanErrorKind::ShortInt => "short int is unimplemented",
            ScanErrorKind::LongInt => "long int is not supported",
            ScanErrorKind::LongUnsignedInt => "long unsigned int is unimplemented",
            ScanErrorKind::FloatSize => "Size specifiers are not allowed for floating-point arguments",
            ScanErrorKind::CharSize => "Size specifiers are not allowed for char arguments",
            ScanErrorKind::StrSize => "Size specifiers are not allowed for str arguments",
            ScanErrorKind::PointerSize => "Size specifiers are not allowed for pointer arguments",
        }
    }
}

} // verus!
