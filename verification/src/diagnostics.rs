//! Error spans: slicing the offending substring out of a format string.
//!
//! A scan error carries the byte span of the text it complains about.  The
//! span's end is inclusive and absent exactly when the string ended inside a
//! specification, in which case the span runs to the end of the string.

use vstd::prelude::*;
use vstd::slice::{slice_subrange, slice_to_vec};

use crate::grammar::{
    lemma_skip_digits_bounds, lemma_skip_flags_bounds, parse_spec_at, scan_from, scan_next,
    size_prefix_at, skip_digits, skip_flags,
};
use crate::types::{ParseError, SizedType};

verus! {

/// The span of `e` points into `s`: it starts inside the string, and when an
/// end is present it lies at or after the start and inside the string.
pub open spec fn span_valid(s: Seq<u8>, e: ParseError) -> bool {
    &&& e.start < s.len()
    &&& match e.end {
        None => true,
        Some(end) => e.start <= end < s.len(),
    }
}

/// The offending substring: from the span's start through its inclusive end,
/// or to the end of the string when no end is present.
pub open spec fn error_span(s: Seq<u8>, e: ParseError) -> Seq<u8> {
    match e.end {
        None => s.subrange(e.start as int, s.len() as int),
        Some(end) => s.subrange(e.start as int, end + 1),
    }
}

/// Every error a specification decode yields carries a span that points into
/// the format string.
proof fn lemma_parse_spec_at_span(s: Seq<u8>, start: int)
    requires
        0 <= start < s.len() <= usize::MAX,
    ensures
        parse_spec_at(s, start).0 is Err ==> span_valid(s, parse_spec_at(s, start).0->Err_0),
{
    lemma_skip_flags_bounds(s, start + 1);
    let f = skip_flags(s, start + 1);
    lemma_skip_digits_bounds(s, f);
    let w = skip_digits(s, f);
    if w < s.len() && s[w] == crate::grammar::DOT {
        lemma_skip_digits_bounds(s, w + 1);
    }
}

/// Every error a scan step yields carries a span that points into the format
/// string.
proof fn lemma_scan_next_span(s: Seq<u8>, i: int)
    requires
        0 <= i,
        s.len() <= usize::MAX,
    ensures
        scan_next(s, i).0 matches Some(Err(e)) ==> span_valid(s, e),
    decreases s.len() - i,
{
    if i < s.len() {
        if s[i] != crate::grammar::PERCENT {
            lemma_scan_next_span(s, i + 1);
        } else if i + 1 < s.len() && s[i + 1] == crate::grammar::PERCENT {
            lemma_scan_next_span(s, i + 2);
        } else {
            lemma_parse_spec_at_span(s, i);
        }
    }
}

/// Every error a whole scan yields carries a span that points into the
/// format string, so the offending substring can always be sliced.
pub proof fn lemma_scan_error_span(s: Seq<u8>, i: int)
    requires
        0 <= i,
        s.len() <= usize::MAX,
    ensures
        scan_from(s, i) is Err ==> span_valid(s, scan_from(s, i)->Err_0),
    decreases s.len() - i,
{
    lemma_scan_next_span(s, i);
    let (item, j) = scan_next(s, i);
    if item matches Some(Ok(st)) {
        crate::grammar::lemma_scan_next_advances(s, i);
        lemma_scan_error_span(s, j);
    }
}

/// Slice the offending substring of `fmt` that `e`'s span covers.
pub fn error_slice(fmt: &[u8], e: &ParseError) -> (r: Vec<u8>)
    requires
        span_valid(fmt@, *e),
    ensures
        r@ == error_span(fmt@, *e),
{
    let n = fmt.len();
    let hi = match e.end {
        Some(end) => end + 1,
        None => n,
    };
    slice_to_vec(slice_subrange(fmt, e.start, hi))
}

} // verus!
