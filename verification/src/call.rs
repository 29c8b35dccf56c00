//! The resolver: scan a format string, then hold the caller's argument count
//! against the resolved wire types.
//!
//! Resolution succeeds exactly when the scan succeeds and the count of
//! resolved wire types equals the argument count; a parse failure and an
//! arity mismatch are reported apart, so a front end can attach each to the
//! right source span.

use vstd::prelude::*;

use crate::grammar::scan_from;
use crate::parser::{result_view, scan_format};
use crate::types::{ParseError, SizedType};

verus! {

/// The device runtime's variadic mechanism has a soft limit of this many
/// trailing arguments; beyond it a build emits an advisory warning, not an
/// error.
pub const MAX_PRINTF_ARGS: usize = 32;

/// Why a call could not be resolved: the format string failed to scan, or
/// the argument count differs from the number of conversion specifications.
#[derive(Clone, Copy, Debug, PartialEq, Eq)]
pub enum CallError {
    Parse(ParseError),
    ArityMismatch { expected: usize, given: usize },
}

/// A resolved call, seen abstractly.
pub open spec fn call_view(r: Result<Vec<SizedType>, CallError>) -> Result<
    Seq<SizedType>,
    CallError,
> {
    match r {
        Ok(v) => Ok(v@),
        Err(e) => Err(e),
    }
}

/// What resolving a call returns: the scanned wire types when their count
/// equals `given`, the scan's first error, or the arity mismatch.
pub open spec fn resolve_call_spec(s: Seq<u8>, given: usize) -> Result<Seq<SizedType>, CallError> {
    match scan_from(s, 0) {
        Err(e) => Err(CallError::Parse(e)),
        Ok(ts) => if ts.len() == given {
            Ok(ts)
        } else {
            Err(CallError::ArityMismatch { expected: ts.len() as usize, given })
        },
    }
}

/// Scan `fmt` and hold `arg_count` against the resolved wire types: the
/// types when the count matches exactly, otherwise the scan's first error or
/// the arity mismatch.
pub fn resolve_call(fmt: &[u8], arg_count: usize) -> (r: Result<Vec<SizedType>, CallError>)
    ensures
        call_view(r) == resolve_call_spec(fmt@, arg_count),
{
    match scan_format(fmt) {
        Err(e) => Err(CallError::Parse(e)),
        Ok(ts) => if ts.len() == arg_count {
            Ok(ts)
        } else {
            Err(CallError::ArityMismatch { expected: ts.len(), given: arg_count })
        },
    }
}

/// Whether an argument count exceeds the soft limit and so deserves the
/// advisory warning.
pub fn exceeds_arg_limit(arg_count: usize) -> (r: bool)
    ensures
        r == (arg_count > MAX_PRINTF_ARGS),
{
    arg_count > MAX_PRINTF_ARGS
}

/// The round-trip count invariant: for a format string whose scan resolves
/// `n` wire types, resolving a call succeeds with exactly `n` arguments, and
/// fails with the arity mismatch for every other count — in particular for
/// `n - 1` and `n + 1`.
pub proof fn lemma_arity_round_trip(s: Seq<u8>, n: usize)
    requires
        scan_from(s, 0) is Ok,
        n == scan_from(s, 0)->Ok_0.len(),
    ensures
        resolve_call_spec(s, n) == Ok::<Seq<SizedType>, CallError>(scan_from(s, 0)->Ok_0),
        forall|m: usize|
            m != n ==> resolve_call_spec(s, m) == Err::<Seq<SizedType>, CallError>(
                CallError::ArityMismatch { expected: n, given: m },
            ),
{
}

} // verus!
