//! The executable format-string scanner.
//!
//! `FormatParser` is a cursor over the bytes of a format string.  Its `next`
//! method yields the resolved wire type of the next conversion specification
//! (or the first error), exactly as the grammar model `scan_next` describes;
//! `scan_format` collects the whole stream, exactly as `scan_from` describes.

use vstd::prelude::*;
use vstd::slice::slice_to_vec;

use crate::grammar::{
    is_digit_byte, is_flag_byte, lemma_scan_next_advances, lemma_skip_digits_is,
    lemma_skip_flags_is, parse_spec_at, resolve_spec, scan_from, scan_next, size_prefix_at,
    skip_flags, type_char_spec, DIGIT_NINE, DIGIT_ZERO, DOT, HASH, MINUS, PERCENT,
    PLUS, SIZE_H, SIZE_L, SPACE, STAR, TYPE_A, TYPE_C, TYPE_D, TYPE_E, TYPE_F, TYPE_G, TYPE_I,
    TYPE_O, TYPE_P, TYPE_S, TYPE_U, TYPE_UPPER_A, TYPE_UPPER_E, TYPE_UPPER_F, TYPE_UPPER_G,
    TYPE_UPPER_X, TYPE_X,
};
use crate::types::{FSize, FType, ParseError, ScanErrorKind, SizedType};

verus! {

/// Whether `c` is one of the flag characters `- + 0 SPACE #`.
pub fn is_flag(c: u8) -> (r: bool)
    ensures
        r == is_flag_byte(c),
{
    c == MINUS || c == PLUS || c == DIGIT_ZERO || c == SPACE || c == HASH
}

/// Whether `c` is an ASCII decimal digit.
pub fn is_digit(c: u8) -> (r: bool)
    ensures
        r == is_digit_byte(c),
{
    DIGIT_ZERO <= c && c <= DIGIT_NINE
}

/// The family a type character selects, or `None` for an invalid character.
pub fn type_char(c: u8) -> (r: Option<FType>)
    ensures
        r == type_char_spec(c),
{
    if c == TYPE_D || c == TYPE_I {
        Some(FType::Integer { signed: true })
    } else if c == TYPE_U || c == TYPE_O || c == TYPE_X || c == TYPE_UPPER_X {
        Some(FType::Integer { signed: false })
    } else if c == TYPE_F || c == TYPE_UPPER_F || c == TYPE_E || c == TYPE_UPPER_E || c == TYPE_G
        || c == TYPE_UPPER_G || c == TYPE_A || c == TYPE_UPPER_A {
        Some(FType::Float)
    } else if c == TYPE_C {
        Some(FType::Char)
    } else if c == TYPE_S {
        Some(FType::Str)
    } else if c == TYPE_P {
        Some(FType::Pointer)
    } else {
        None
    }
}

/// The type/size resolution table, executably: the exact wire type for each
/// allowed (family, size) pair, and the documented rejection otherwise.
pub fn resolve_type(t: FType, size: Option<FSize>) -> (r: Result<SizedType, ScanErrorKind>)
    ensures
        r == resolve_spec(t, size),
{
    match (t, size) {
        (FType::Integer { signed: true }, None) => Ok(SizedType::I32),
        (FType::Integer { signed: true }, Some(FSize::Short)) => Err(ScanErrorKind::ShortInt),
        (FType::Integer { signed: true }, Some(FSize::Long)) => Err(ScanErrorKind::LongInt),
        (FType::Integer { signed: true }, Some(FSize::LongLong)) => Ok(SizedType::I64),
        (FType::Integer { signed: false }, None) => Ok(SizedType::U32),
        (FType::Integer { signed: false }, Some(FSize::Short)) => Ok(SizedType::U16),
        (FType::Integer { signed: false }, Some(FSize::Long)) => Err(ScanErrorKind::LongUnsignedInt),
        (FType::Integer { signed: false }, Some(FSize::LongLong)) => Ok(SizedType::U64),
        (FType::Float, None) => Ok(SizedType::Double),
        (FType::Float, Some(_)) => Err(ScanErrorKind::FloatSize),
        (FType::Char, None) => Ok(SizedType::U32),
        (FType::Char, Some(_)) => Err(ScanErrorKind::CharSize),
        (FType::Str, None) => Ok(SizedType::StrPtr),
        (FType::Str, Some(_)) => Err(ScanErrorKind::StrSize),
        (FType::Pointer, None) => Ok(SizedType::VoidPtr),
        (FType::Pointer, Some(_)) => Err(ScanErrorKind::PointerSize),
    }
}

/// A cursor over the bytes of a format string.
pub struct FormatParser {
    pub bytes: Vec<u8>,
    pub pos: usize,
}

impl FormatParser {
    /// The cursor never stands past the end of the string.
    pub open spec fn wf(self) -> bool {
        self.pos <= self.bytes@.len()
    }

    /// A fresh cursor over `fmt`, standing at its first byte.
    pub fn new(fmt: &[u8]) -> (p: FormatParser)
        ensures
            p.bytes@ == fmt@,
            p.pos == 0,
            p.wf(),
    {
        FormatParser { bytes: slice_to_vec(fmt), pos: 0 }
    }

    /// Consume the next byte if `f` accepts it; report whether it did.
    pub fn consume_if<F: Fn(u8) -> bool>(&mut self, f: F) -> (r: bool)
        requires
            old(self).wf(),
            forall|c: u8| #[trigger] f.requires((c,)),
        ensures
            final(self).wf(),
            final(self).bytes@ == old(self).bytes@,
            r ==> old(self).pos < old(self).bytes@.len() && f.ensures(
                (old(self).bytes@[old(self).pos as int],),
                true,
            ) && final(self).pos == old(self).pos + 1,
            !r ==> final(self).pos == old(self).pos && (old(self).pos < old(self).bytes@.len()
                ==> f.ensures((old(self).bytes@[old(self).pos as int],), false)),
    {
        if self.pos < self.bytes.len() {
            let c = self.bytes[self.pos];
            if f(c) {
                self.pos = self.pos + 1;
                return true;
            }
        }
        false
    }

    /// Consume the next byte if it equals `chr`; report whether it did.
    pub fn consume_if_eq(&mut self, chr: u8) -> (r: bool)
        requires
            old(self).wf(),
        ensures
            final(self).wf(),
            final(self).bytes@ == old(self).bytes@,
            r == (old(self).pos < old(self).bytes@.len()
                && old(self).bytes@[old(self).pos as int] == chr),
            final(self).pos == (if r {
                old(self).pos + 1
            } else {
                old(self).pos as int
            }),
    {
        if self.pos < self.bytes.len() && self.bytes[self.pos] == chr {
            self.pos = self.pos + 1;
            true
        } else {
            false
        }
    }

    /// Consume bytes while `f` accepts them, stopping at the first it
    /// rejects or at the end of the string.
    pub fn consume_while<F: Fn(u8) -> bool>(&mut self, f: F)
        requires
            old(self).wf(),
            forall|c: u8| #[trigger] f.requires((c,)),
        ensures
            final(self).wf(),
            final(self).bytes@ == old(self).bytes@,
            old(self).pos <= final(self).pos <= old(self).bytes@.len(),
            forall|k: int|
                old(self).pos <= k < final(self).pos ==> f.ensures((old(self).bytes@[k],), true),
            final(self).pos < old(self).bytes@.len() ==> f.ensures(
                (old(self).bytes@[final(self).pos as int],),
                false,
            ),
    {
        loop
            invariant
                self.wf(),
                self.bytes@ == old(self).bytes@,
                old(self).pos <= self.pos <= self.bytes@.len(),
                forall|c: u8| #[trigger] f.requires((c,)),
                forall|k: int|
                    old(self).pos <= k < self.pos ==> f.ensures((self.bytes@[k],), true),
            ensures
                self.pos < self.bytes@.len() ==> f.ensures(
                    (self.bytes@[self.pos as int],),
                    false,
                ),
            decreases self.bytes@.len() - self.pos,
        {
            if self.pos >= self.bytes.len() {
                break;
            }
            let c = self.bytes[self.pos];
            if !f(c) {
                break;
            }
            self.pos = self.pos + 1;
        }
    }

    /// Consume bytes while they equal `chr`, stopping at the first other
    /// byte or at the end of the string.
    pub fn consume_while_eq(&mut self, chr: u8)
        requires
            old(self).wf(),
        ensures
            final(self).wf(),
            final(self).bytes@ == old(self).bytes@,
            old(self).pos <= final(self).pos <= old(self).bytes@.len(),
            forall|k: int| old(self).pos <= k < final(self).pos ==> old(self).bytes@[k] == chr,
            final(self).pos < old(self).bytes@.len() ==> old(self).bytes@[final(self).pos as int]
                != chr,
    {
        loop
            invariant
                self.wf(),
                self.bytes@ == old(self).bytes@,
                old(self).pos <= self.pos <= self.bytes@.len(),
                forall|k: int| old(self).pos <= k < self.pos ==> self.bytes@[k] == chr,
            ensures
                self.pos < self.bytes@.len() ==> self.bytes@[self.pos as int] != chr,
            decreases self.bytes@.len() - self.pos,
        {
            if self.pos >= self.bytes.len() {
                break;
            }
            if self.bytes[self.pos] != chr {
                break;
            }
            self.pos = self.pos + 1;
        }
    }

    /// Scan forward to the next conversion specification and decode it: the
    /// resolved wire type or the first error, or `None` once the string is
    /// exhausted.  Behaves exactly as one step of the grammar model.
    pub fn next(&mut self) -> (r: Option<Result<SizedType, ParseError>>)
        requires
            old(self).wf(),
        ensures
            final(self).wf(),
            final(self).bytes@ == old(self).bytes@,
            r == scan_next(old(self).bytes@, old(self).pos as int).0,
            final(self).pos as int == scan_next(old(self).bytes@, old(self).pos as int).1,
    {
        let ghost s = self.bytes@;
        let ghost pos0 = self.pos as int;
        loop
            invariant
                self.wf(),
                self.bytes@ == s,
                s == old(self).bytes@,
                pos0 == old(self).pos as int,
                scan_next(s, self.pos as int) == scan_next(s, pos0),
            decreases s.len() - self.pos,
        {
            if self.pos >= self.bytes.len() {
                return None;
            }
            let start = self.pos;
            let c = self.bytes[start];
            self.pos = start + 1;
            if c != PERCENT {
                continue;
            }
            // A literal `%%` contributes nothing.
            if self.consume_if_eq(PERCENT) {
                continue;
            }
            // A conversion specification begins at `start`.
            proof {
                assert(scan_next(s, start as int) == (
                    Some(parse_spec_at(s, start as int).0),
                    parse_spec_at(s, start as int).1,
                ));
            }
            // Flags.
            let ghost flags_from = self.pos as int;
            self.consume_while(|b: u8| -> (acc: bool) ensures acc == is_flag_byte(b) { is_flag(b) });
            proof {
                assert forall|k: int| flags_from <= k < self.pos as int implies is_flag_byte(
                    s[k],
                ) by {}
                lemma_skip_flags_is(s, flags_from, self.pos as int);
                assert(self.pos as int == skip_flags(s, start + 1));
            }
            // Width: a `*` is rejected, digits are skipped.
            if self.consume_if_eq(STAR) {
                return Some(
                    Err(
                        ParseError {
                            kind: ScanErrorKind::VariableWidth,
                            start,
                            end: Some(self.pos - 1),
                        },
                    ),
                );
            }
            let ghost width_from = self.pos as int;
            self.consume_while(|b: u8| -> (acc: bool) ensures acc == is_digit_byte(b) { is_digit(b) });
            proof {
                assert forall|k: int| width_from <= k < self.pos as int implies is_digit_byte(
                    s[k],
                ) by {}
                lemma_skip_digits_is(s, width_from, self.pos as int);
            }
            // Precision: a `*` is rejected, digits are skipped.
            if self.consume_if_eq(DOT) {
                if self.consume_if_eq(STAR) {
                    return Some(
                        Err(
                            ParseError {
                                kind: ScanErrorKind::VariablePrecision,
                                start,
                                end: Some(self.pos - 1),
                            },
                        ),
                    );
                }
                let ghost prec_from = self.pos as int;
                self.consume_while(|b: u8| -> (acc: bool) ensures acc == is_digit_byte(b) { is_digit(b) });
                proof {
                    assert forall|k: int| prec_from <= k < self.pos as int implies is_digit_byte(
                        s[k],
                    ) by {}
                    lemma_skip_digits_is(s, prec_from, self.pos as int);
                }
            }
            let ghost p = self.pos as int;
            // Size prefix: `h`, `l` or `ll`.
            let size: Option<FSize> = if self.consume_if_eq(SIZE_H) {
                Some(FSize::Short)
            } else if self.consume_if_eq(SIZE_L) {
                if self.consume_if_eq(SIZE_L) {
                    Some(FSize::LongLong)
                } else {
                    Some(FSize::Long)
                }
            } else {
                None
            };
            proof {
                assert((size, self.pos as int) == size_prefix_at(s, p));
            }
            // Type character.
            if self.pos >= self.bytes.len() {
                return Some(
                    Err(ParseError { kind: ScanErrorKind::EndedEarly, start, end: None }),
                );
            }
            let tc = self.bytes[self.pos];
            self.pos = self.pos + 1;
            let family = match type_char(tc) {
                Some(family) => family,
                None => {
                    return Some(
                        Err(
                            ParseError {
                                kind: ScanErrorKind::InvalidType,
                                start,
                                end: Some(self.pos - 1),
                            },
                        ),
                    );
                },
            };
            return Some(
                match resolve_type(family, size) {
                    Ok(st) => Ok(st),
                    Err(kind) => Err(
                        ParseError { kind, start, end: Some(self.pos - 1) },
                    ),
                },
            );
        }
    }
}

/// A collected scan result, seen abstractly.
pub open spec fn result_view(r: Result<Vec<SizedType>, ParseError>) -> Result<
    Seq<SizedType>,
    ParseError,
> {
    match r {
        Ok(v) => Ok(v@),
        Err(e) => Err(e),
    }
}

/// Scan a whole format string: the wire types of all its conversion
/// specifications in order, or the first error.
pub fn scan_format(fmt: &[u8]) -> (r: Result<Vec<SizedType>, ParseError>)
    ensures
        result_view(r) == scan_from(fmt@, 0),
{
    let mut parser = FormatParser::new(fmt);
    let mut types: Vec<SizedType> = Vec::new();
    loop
        invariant
            parser.wf(),
            parser.bytes@ == fmt@,
            (match scan_from(fmt@, parser.pos as int) {
                Ok(rest) => scan_from(fmt@, 0) == Ok::<Seq<SizedType>, ParseError>(types@ + rest),
                Err(e) => scan_from(fmt@, 0) == Err::<Seq<SizedType>, ParseError>(e),
            }),
        decreases fmt@.len() - parser.pos,
    {
        let ghost p = parser.pos as int;
        match parser.next() {
            None => {
                proof {
                    assert(types@ + Seq::<SizedType>::empty() =~= types@);
                }
                return Ok(types);
            },
            Some(Ok(st)) => {
                proof {
                    lemma_scan_next_advances(fmt@, p);
                }
                let ghost before = types@;
                types.push(st);
                proof {
                    let j = parser.pos as int;
                    if scan_from(fmt@, j) is Ok {
                        let rest = scan_from(fmt@, j)->Ok_0;
                        assert(before + (seq![st] + rest) =~= types@ + rest);
                    }
                }
            },
            Some(Err(e)) => {
                return Err(e);
            },
        }
    }
}

/// Scanning has no hidden state: any two scans of the same format string
/// agree, so re-scanning a string yields identical results.
pub proof fn lemma_scan_deterministic(
    fmt: Seq<u8>,
    r1: Result<Vec<SizedType>, ParseError>,
    r2: Result<Vec<SizedType>, ParseError>,
)
    requires
        result_view(r1) == scan_from(fmt, 0),
        result_view(r2) == scan_from(fmt, 0),
    ensures
        result_view(r1) == result_view(r2),
{
}

} // verus!
