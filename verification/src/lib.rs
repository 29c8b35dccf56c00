//! A verified model of the CUDA-style `printf` format pipeline.
//!
//! The crate walks a format string once, decodes every `%...` conversion
//! specification into flags, width, precision, size prefix and type character,
//! and lowers each specification to the exact fixed-width wire type that the
//! device runtime's variadic ABI expects.  Scanning, the type/size resolution
//! table, the argument-arity check and the textual call emission are all
//! specified and proved here; the host compiler integration (macro
//! registration and token plumbing) stands outside the verified core.

pub mod call;
pub mod device;
pub mod diagnostics;
pub mod emit;
pub mod grammar;
pub mod parser;
pub mod types;

pub use crate::call::{exceeds_arg_limit, resolve_call, CallError, MAX_PRINTF_ARGS};
pub use crate::device::{blockDim, blockIdx, gridDim, threadIdx, CudaSysAllocator, Match, Shuffle};
pub use crate::diagnostics::error_slice;
pub use crate::emit::{emit_call, expand_call, wire_type_token};
pub use crate::parser::{is_flag, resolve_type, scan_format, type_char, FormatParser};
pub use crate::types::{FSize, FType, ParseError, ScanErrorKind, SizedType};
