//! The call emitter.
//!
//! Given the resolved wire types, the format string literal's source text
//! and the argument expressions' source texts, emit the text of a single
//! block expression that declares a packed, declaration-ordered record type
//! whose fields are the wire types, fills an instance from the arguments,
//! and hands the format pointer and the record's address to the device
//! runtime's formatted-output entry point.

use vstd::prelude::*;
use vstd::string::StringExecFns;

use crate::call::{resolve_call, resolve_call_spec, CallError};
use crate::types::SizedType;

verus! {

/// The field-type token a wire type is written as in the emitted record.
pub open spec fn wire_token(st: SizedType) -> Seq<char> {
    match st {
        SizedType::I16 => "i16"@,
        SizedType::I32 => "i32"@,
        SizedType::I64 => "i64"@,
        SizedType::U16 => "u16"@,
        SizedType::U32 => "u32"@,
        SizedType::U64 => "u64"@,
        SizedType::Double => "f64"@,
        SizedType::VoidPtr => "*const ::core::ffi::c_void"@,
        SizedType::StrPtr => "*const u8"@,
    }
}

/// The field-type token a wire type is written as in the emitted record.
pub fn wire_type_token(st: SizedType) -> (r: &'static str)
    ensures
        r@ == wire_token(st),
{
    match st {
        SizedType::I16 => "i16",
        SizedType::I32 => "i32",
        SizedType::I64 => "i64",
        SizedType::U16 => "u16",
        SizedType::U32 => "u32",
        SizedType::U64 => "u64",
        SizedType::Double => "f64",
        SizedType::VoidPtr => "*const ::core::ffi::c_void",
        SizedType::StrPtr => "*const u8",
    }
}

/// The wire types' tokens joined with `", "`, in specifier order.
pub open spec fn wire_list(ts: Seq<SizedType>) -> Seq<char>
    decreases ts.len(),
{
    if ts.len() == 0 {
        Seq::empty()
    } else if ts.len() == 1 {
        wire_token(ts[0])
    } else {
        wire_list(ts.drop_last()) + ", "@ + wire_token(ts.last())
    }
}

/// The argument expression texts joined with `", "`, in call order.
pub open spec fn arg_list(args: Seq<String>) -> Seq<char>
    decreases args.len(),
{
    if args.len() == 0 {
        Seq::empty()
    } else if args.len() == 1 {
        args[0]@
    } else {
        arg_list(args.drop_last()) + ", "@ + args.last()@
    }
}

/// The emitted call: a block that declares the packed record type, fills an
/// instance from the arguments in order, and invokes the runtime entry point
/// with the format pointer and the record's address.
pub open spec fn emit_spec(fmt_lit: Seq<char>, ts: Seq<SizedType>, args: Seq<String>) -> Seq<
    char,
> {
    "{ #[repr(C)] struct VPrintfArgs("@ + wire_list(ts) + "); let mut vargs = VPrintfArgs("@
        + arg_list(args) + "); ::nvptx_sys::vprintf(("@ + fmt_lit
        + ").as_ptr(), ::core::ptr::addr_of_mut!(vargs) as *mut ::core::ffi::c_void) }"@
}

/// Emit the call text for a resolved invocation: `fmt_lit` is the format
/// string literal as written in source, `types` the resolved wire types, and
/// `args` the argument expressions' source texts, one per wire type.
pub fn emit_call(fmt_lit: &str, types: &Vec<SizedType>, args: &Vec<String>) -> (r: String)
    requires
        types@.len() == args@.len(),
    ensures
        r@ == emit_spec(fmt_lit@, types@, args@),
{
    let mut out = String::from_str("{ #[repr(C)] struct VPrintfArgs(");
    let ghost prefix = out@;
    let mut i: usize = 0;
    while i < types.len()
        invariant
            i <= types@.len(),
            out@ == prefix + wire_list(types@.take(i as int)),
        decreases types@.len() - i,
    {
        if i > 0 {
            out.append(", ");
        }
        out.append(wire_type_token(types[i]));
        proof {
            let done = types@.take(i + 1 as int);
            assert(done.drop_last() =~= types@.take(i as int));
            assert(done.last() == types@[i as int]);
            if i == 0 {
                assert(Seq::<char>::empty() + wire_token(types@[0]) =~= wire_token(types@[0]));
                assert(prefix + Seq::<char>::empty() + wire_token(types@[0]) =~= prefix
                    + wire_token(types@[0]));
            } else {
                assert(prefix + wire_list(types@.take(i as int)) + ", "@ + wire_token(
                    types@[i as int],
                ) =~= prefix + wire_list(done));
            }
        }
        i = i + 1;
    }
    proof {
        assert(types@.take(types@.len() as int) =~= types@);
    }
    out.append("); let mut vargs = VPrintfArgs(");
    let ghost mid = out@;
    let mut j: usize = 0;
    while j < args.len()
        invariant
            j <= args@.len(),
            out@ == mid + arg_list(args@.take(j as int)),
        decreases args@.len() - j,
    {
        if j > 0 {
            out.append(", ");
        }
        out.append(args[j].as_str());
        proof {
            let done = args@.take(j + 1 as int);
            assert(done.drop_last() =~= args@.take(j as int));
            assert(done.last() == args@[j as int]);
            if j == 0 {
                assert(Seq::<char>::empty() + args@[0]@ =~= args@[0]@);
                assert(mid + Seq::<char>::empty() + args@[0]@ =~= mid + args@[0]@);
            } else {
                assert(mid + arg_list(args@.take(j as int)) + ", "@ + args@[j as int]@ =~= mid
                    + arg_list(done));
            }
        }
        j = j + 1;
    }
    proof {
        assert(args@.take(args@.len() as int) =~= args@);
    }
    out.append("); ::nvptx_sys::vprintf((");
    out.append(fmt_lit);
    out.append(").as_ptr(), ::core::ptr::addr_of_mut!(vargs) as *mut ::core::ffi::c_void) }");
    proof {
        assert(out@ =~= emit_spec(fmt_lit@, types@, args@));
    }
    out
}

/// What expanding one invocation yields: the emitted call text when the
/// format string scans and its specification count equals the argument
/// count, otherwise the scan's first error or the arity mismatch.
pub open spec fn expand_spec(fmt_lit: Seq<char>, fmt: Seq<u8>, args: Seq<String>) -> Result<
    Seq<char>,
    CallError,
> {
    match resolve_call_spec(fmt, args.len() as usize) {
        Ok(ts) => Ok(emit_spec(fmt_lit, ts, args)),
        Err(e) => Err(e),
    }
}

/// An expansion result, seen abstractly.
pub open spec fn expand_view(r: Result<String, CallError>) -> Result<Seq<char>, CallError> {
    match r {
        Ok(text) => Ok(text@),
        Err(e) => Err(e),
    }
}

/// Expand one invocation whole: scan `fmt` (the decoded format string),
/// hold the argument count against the resolved wire types, and emit the
/// call text from `fmt_lit` (the format literal as written in source) and
/// the argument expressions' source texts.
pub fn expand_call(fmt_lit: &str, fmt: &[u8], args: &Vec<String>) -> (r: Result<String, CallError>)
    ensures
        expand_view(r) == expand_spec(fmt_lit@, fmt@, args@),
{
    match resolve_call(fmt, args.len()) {
        Ok(types) => Ok(emit_call(fmt_lit, &types, args)),
        Err(e) => Err(e),
    }
}

} // verus!
