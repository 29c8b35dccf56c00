//! The mathematical model of the format-string grammar.
//!
//! A format string is a byte sequence.  `scan_from` walks it once: literal
//! bytes and `%%` escapes contribute nothing, and every other `%` opens a
//! conversion specification `%[flags][width][.precision][size]type` that is
//! decoded by `parse_spec_at` and lowered through the type/size resolution
//! table `resolve_spec`.  The first error aborts the whole scan.
//!
//! Offsets are byte offsets into the format string, so error spans can slice
//! the offending substring directly.

use vstd::prelude::*;

use crate::types::{FSize, FType, ParseError, ScanErrorKind, SizedType};

verus! {

/// Byte value of `%`.
pub const PERCENT: u8 = 37;

/// Byte value of `*`.
pub const STAR: u8 = 42;

/// Byte value of `.`.
pub const DOT: u8 = 46;

/// Byte value of `-`.
pub const MINUS: u8 = 45;

/// Byte value of `+`.
pub const PLUS: u8 = 43;

/// Byte value of `0`; the digits run from here to `DIGIT_NINE`.
pub const DIGIT_ZERO: u8 = 48;

/// Byte value of `9`.
pub const DIGIT_NINE: u8 = 57;

/// Byte value of the space character.
pub const SPACE: u8 = 32;

/// Byte value of `#`.
pub const HASH: u8 = 35;

/// Byte value of `h`.
pub const SIZE_H: u8 = 104;

/// Byte value of `l`.
pub const SIZE_L: u8 = 108;

/// Byte value of `d`.
pub const TYPE_D: u8 = 100;

/// Byte value of `i`.
pub const TYPE_I: u8 = 105;

/// Byte value of `u`.
pub const TYPE_U: u8 = 117;

/// Byte value of `o`.
pub const TYPE_O: u8 = 111;

/// Byte value of `x`.
pub const TYPE_X: u8 = 120;

/// Byte value of `X`.
pub const TYPE_UPPER_X: u8 = 88;

/// Byte value of `f`.
pub const TYPE_F: u8 = 102;

/// Byte value of `F`.
pub const TYPE_UPPER_F: u8 = 70;

/// Byte value of `e`.
pub const TYPE_E: u8 = 101;

/// Byte value of `E`.
pub const TYPE_UPPER_E: u8 = 69;

/// Byte value of `g`.
pub const TYPE_G: u8 = 103;

/// Byte value of `G`.
pub const TYPE_UPPER_G: u8 = 71;

/// Byte value of `a`.
pub const TYPE_A: u8 = 97;

/// Byte value of `A`.
pub const TYPE_UPPER_A: u8 = 65;

/// Byte value of `c`.
pub const TYPE_C: u8 = 99;

/// Byte value of `s`.
pub const TYPE_S: u8 = 115;

/// Byte value of `p`.
pub const TYPE_P: u8 = 112;

/// The flag characters `- + 0 SPACE #`.
pub open spec fn is_flag_byte(c: u8) -> bool {
    c == MINUS || c == PLUS || c == DIGIT_ZERO || c == SPACE || c == HASH
}

/// ASCII decimal digits.
pub open spec fn is_digit_byte(c: u8) -> bool {
    DIGIT_ZERO <= c && c <= DIGIT_NINE
}

/// The family a type character selects, or `None` for an invalid character.
pub open spec fn type_char_spec(c: u8) -> Option<FType> {
    if c == TYPE_D || c == TYPE_I {
        Some(FType::Integer { signed: true })
    } else if c == TYPE_U || c == TYPE_O || c == TYPE_X || c == TYPE_UPPER_X {
        Some(FType::Integer { signed: false })
    } else if c == TYPE_F || c == TYPE_UPPER_F || c == TYPE_E || c == TYPE_UPPER_E || c == TYPE_G
        || c == TYPE_UPPER_G || c == TYPE_A || c == TYPE_UPPER_A {
        Some(FType::Float)
    } else if c == TYPE_C {
        Some(FType::Char)
    } else if c == TYPE_S {
        Some(FType::Str)
    } else if c == TYPE_P {
        Some(FType::Pointer)
    } else {
        None
    }
}

/// The type/size resolution table: the exact wire type for each allowed
/// (family, size) pair, and the documented rejection for each disallowed one.
pub open spec fn resolve_spec(t: FType, size: Option<FSize>) -> Result<SizedType, ScanErrorKind> {
    match (t, size) {
        (FType::Integer { signed: true }, None) => Ok(SizedType::I32),
        (FType::Integer { signed: true }, Some(FSize::Short)) => Err(ScanErrorKind::ShortInt),
        (FType::Integer { signed: true }, Some(FSize::Long)) => Err(ScanErrorKind::LongInt),
        (FType::Integer { signed: true }, Some(FSize::LongLong)) => Ok(SizedType::I64),
        (FType::Integer { signed: false }, None) => Ok(SizedType::U32),
        (FType::Integer { signed: false }, Some(FSize::Short)) => Ok(SizedType::U16),
        (FType::Integer { signed: false }, Some(FSize::Long)) => Err(ScanErrorKind::LongUnsignedInt),
        (FType::Integer { signed: false }, Some(FSize::LongLong)) => Ok(SizedType::U64),
        (FType::Float, None) => Ok(SizedType::Double),
        (FType::Float, Some(_)) => Err(ScanErrorKind::FloatSize),
        (FType::Char, None) => Ok(SizedType::U32),
        (FType::Char, Some(_)) => Err(ScanErrorKind::CharSize),
        (FType::Str, None) => Ok(SizedType::StrPtr),
        (FType::Str, Some(_)) => Err(ScanErrorKind::StrSize),
        (FType::Pointer, None) => Ok(SizedType::VoidPtr),
        (FType::Pointer, Some(_)) => Err(ScanErrorKind::PointerSize),
    }
}

/// The first position at or after `i` whose byte is not a flag (or the end).
pub open spec fn skip_flags(s: Seq<u8>, i: int) -> int
    decreases s.len() - i,
{
    if 0 <= i < s.len() && is_flag_byte(s[i]) {
        skip_flags(s, i + 1)
    } else {
        i
    }
}

/// The first position at or after `i` whose byte is not a digit (or the end).
pub open spec fn skip_digits(s: Seq<u8>, i: int) -> int
    decreases s.len() - i,
{
    if 0 <= i < s.len() && is_digit_byte(s[i]) {
        skip_digits(s, i + 1)
    } else {
        i
    }
}

/// The size prefix beginning at `i` (`h`, `l` or `ll`), and the position
/// after it.  A single `h` is the only short form recognized; `hh` leaves the
/// second `h` to be read as the type character.
pub open spec fn size_prefix_at(s: Seq<u8>, i: int) -> (Option<FSize>, int) {
    if 0 <= i < s.len() && s[i] == SIZE_H {
        (Some(FSize::Short), i + 1)
    } else if 0 <= i < s.len() && s[i] == SIZE_L {
        if i + 1 < s.len() && s[i + 1] == SIZE_L {
            (Some(FSize::LongLong), i + 2)
        } else {
            (Some(FSize::Long), i + 1)
        }
    } else {
        (None, i)
    }
}

/// A scan error whose span starts at `start` and ends at `end` (inclusive).
pub open spec fn err_at(kind: ScanErrorKind, start: int, end: Option<int>) -> ParseError {
    ParseError {
        kind,
        start: start as usize,
        end: match end {
            None => None,
            Some(e) => Some(e as usize),
        },
    }
}

/// Decode the conversion specification whose `%` stands at `start`: the
/// resolved wire type or the first error, and the position after the last
/// byte consumed.
pub open spec fn parse_spec_at(s: Seq<u8>, start: int) -> (Result<SizedType, ParseError>, int) {
    let f = skip_flags(s, start + 1);
    if f < s.len() && s[f] == STAR {
        (Err(err_at(ScanErrorKind::VariableWidth, start, Some(f))), f + 1)
    } else {
        let w = skip_digits(s, f);
        if w < s.len() && s[w] == DOT && w + 1 < s.len() && s[w + 1] == STAR {
            (Err(err_at(ScanErrorKind::VariablePrecision, start, Some(w + 1))), w + 2)
        } else {
            let p = if w < s.len() && s[w] == DOT {
                skip_digits(s, w + 1)
            } else {
                w
            };
            let (size, t) = size_prefix_at(s, p);
            if t >= s.len() {
                (Err(err_at(ScanErrorKind::EndedEarly, start, None)), t)
            } else {
                match type_char_spec(s[t]) {
                    None => (Err(err_at(ScanErrorKind::InvalidType, start, Some(t))), t + 1),
                    Some(family) => match resolve_spec(family, size) {
                        Ok(st) => (Ok(st), t + 1),
                        Err(kind) => (Err(err_at(kind, start, Some(t))), t + 1),
                    },
                }
            }
        }
    }
}

/// One step of the scan from position `i`: the next specification's result
/// (`None` once the string is exhausted) and the cursor position afterwards.
pub open spec fn scan_next(s: Seq<u8>, i: int) -> (Option<Result<SizedType, ParseError>>, int)
    decreases s.len() - i,
{
    if i < 0 || i >= s.len() {
        (None, i)
    } else if s[i] != PERCENT {
        scan_next(s, i + 1)
    } else if i + 1 < s.len() && s[i + 1] == PERCENT {
        scan_next(s, i + 2)
    } else {
        let (r, j) = parse_spec_at(s, i);
        (Some(r), j)
    }
}

/// The whole scan from position `i`: the wire types of all remaining
/// conversion specifications in order, or the first error.
pub open spec fn scan_from(s: Seq<u8>, i: int) -> Result<Seq<SizedType>, ParseError>
    decreases s.len() - i,
        via scan_from_decreases
{
    let (item, j) = scan_next(s, i);
    match item {
        None => Ok(Seq::empty()),
        Some(Err(e)) => Err(e),
        Some(Ok(st)) => match scan_from(s, j) {
            Ok(rest) => Ok(seq![st] + rest),
            Err(e) => Err(e),
        },
    }
}

#[via_fn]
proof fn scan_from_decreases(s: Seq<u8>, i: int) {
    if 0 <= i {
        lemma_scan_next_advances(s, i);
    }
}

/// The string holds only literal text and `%%` escapes from position `i`
/// on: every `%` is the first of an adjacent pair.
pub open spec fn literal_only(s: Seq<u8>, i: int) -> bool
    decreases s.len() - i,
{
    if i < 0 || i >= s.len() {
        true
    } else if s[i] == PERCENT {
        i + 1 < s.len() && s[i + 1] == PERCENT && literal_only(s, i + 2)
    } else {
        literal_only(s, i + 1)
    }
}

/// A format string of literal text and `%%` escapes alone resolves to the
/// empty wire-type sequence: no specification, no argument, no error.
pub proof fn lemma_literal_only_scans_empty(s: Seq<u8>, i: int)
    requires
        0 <= i,
        literal_only(s, i),
    ensures
        scan_from(s, i) == Ok::<Seq<SizedType>, ParseError>(Seq::empty()),
    decreases s.len() - i,
{
    if i >= s.len() {
    } else if s[i] != PERCENT {
        lemma_literal_only_scans_empty(s, i + 1);
        assert(scan_from(s, i) == scan_from(s, i + 1));
    } else {
        lemma_literal_only_scans_empty(s, i + 2);
        assert(scan_from(s, i) == scan_from(s, i + 2));
    }
}

/// `skip_flags` stays within `[i, s.len()]`, skips only flag bytes, and
/// stops at the first non-flag byte.
pub proof fn lemma_skip_flags_bounds(s: Seq<u8>, i: int)
    requires
        0 <= i <= s.len(),
    ensures
        i <= skip_flags(s, i) <= s.len(),
        forall|k: int| i <= k < skip_flags(s, i) ==> is_flag_byte(s[k]),
        skip_flags(s, i) < s.len() ==> !is_flag_byte(s[skip_flags(s, i)]),
    decreases s.len() - i,
{
    if i < s.len() && is_flag_byte(s[i]) {
        lemma_skip_flags_bounds(s, i + 1);
    }
}

/// `skip_flags(s, i)` is the unique position that the characterization in
/// `lemma_skip_flags_bounds` describes.
pub proof fn lemma_skip_flags_is(s: Seq<u8>, i: int, j: int)
    requires
        0 <= i <= j <= s.len(),
        forall|k: int| i <= k < j ==> is_flag_byte(s[k]),
        j < s.len() ==> !is_flag_byte(s[j]),
    ensures
        skip_flags(s, i) == j,
    decreases s.len() - i,
{
    if i < s.len() && is_flag_byte(s[i]) {
        lemma_skip_flags_is(s, i + 1, j);
    }
}

/// `skip_digits` stays within `[i, s.len()]`, skips only digits, and stops
/// at the first non-digit.
pub proof fn lemma_skip_digits_bounds(s: Seq<u8>, i: int)
    requires
        0 <= i <= s.len(),
    ensures
        i <= skip_digits(s, i) <= s.len(),
        forall|k: int| i <= k < skip_digits(s, i) ==> is_digit_byte(s[k]),
        skip_digits(s, i) < s.len() ==> !is_digit_byte(s[skip_digits(s, i)]),
    decreases s.len() - i,
{
    if i < s.len() && is_digit_byte(s[i]) {
        lemma_skip_digits_bounds(s, i + 1);
    }
}

/// `skip_digits(s, i)` is the unique position that the characterization in
/// `lemma_skip_digits_bounds` describes.
pub proof fn lemma_skip_digits_is(s: Seq<u8>, i: int, j: int)
    requires
        0 <= i <= j <= s.len(),
        forall|k: int| i <= k < j ==> is_digit_byte(s[k]),
        j < s.len() ==> !is_digit_byte(s[j]),
    ensures
        skip_digits(s, i) == j,
    decreases s.len() - i,
{
    if i < s.len() && is_digit_byte(s[i]) {
        lemma_skip_digits_is(s, i + 1, j);
    }
}

/// Decoding a specification consumes at least the `%` and never runs past
/// the end of the string.
pub proof fn lemma_parse_spec_at_bounds(s: Seq<u8>, start: int)
    requires
        0 <= start < s.len(),
    ensures
        start < parse_spec_at(s, start).1 <= s.len(),
{
    lemma_skip_flags_bounds(s, start + 1);
    let f = skip_flags(s, start + 1);
    lemma_skip_digits_bounds(s, f);
    let w = skip_digits(s, f);
    if w < s.len() && s[w] == DOT {
        lemma_skip_digits_bounds(s, w + 1);
    }
}

/// A scan step that yields an item moves the cursor strictly forward; the
/// cursor never runs past the end of the string.
pub proof fn lemma_scan_next_advances(s: Seq<u8>, i: int)
    requires
        0 <= i,
    ensures
        scan_next(s, i).0 is Some ==> i < scan_next(s, i).1 <= s.len(),
        i <= scan_next(s, i).1,
        scan_next(s, i).1 <= s.len() || scan_next(s, i).1 == i,
    decreases s.len() - i,
{
    if i < s.len() {
        if s[i] != PERCENT {
            lemma_scan_next_advances(s, i + 1);
        } else if i + 1 < s.len() && s[i + 1] == PERCENT {
            lemma_scan_next_advances(s, i + 2);
        } else {
            lemma_parse_spec_at_bounds(s, i);
        }
    }
}

} // verus!
