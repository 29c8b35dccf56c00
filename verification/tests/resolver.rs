//! Resolver behaviour: the arity check, the soft argument limit, and the
//! diagnostic span slicing.

use nvptx_vprintf::{
    error_slice, exceeds_arg_limit, resolve_call, CallError, ScanErrorKind, SizedType,
};

#[test]
fn zero_specifiers_zero_arguments() {
    let r = resolve_call(b"hello %% world", 0).expect("should resolve");
    assert_eq!(r, vec![]);
}

#[test]
fn eight_specifiers_eight_arguments() {
    let r = resolve_call(b"%d %u %lld %llu %f %c %s %p", 8).expect("should resolve");
    assert_eq!(
        r,
        vec![
            SizedType::I32,
            SizedType::U32,
            SizedType::I64,
            SizedType::U64,
            SizedType::Double,
            SizedType::U32,
            SizedType::StrPtr,
            SizedType::VoidPtr,
        ]
    );
}

#[test]
fn arity_must_match_exactly() {
    assert_eq!(
        resolve_call(b"%d %d", 1),
        Err(CallError::ArityMismatch { expected: 2, given: 1 })
    );
    assert_eq!(
        resolve_call(b"%d %d", 3),
        Err(CallError::ArityMismatch { expected: 2, given: 3 })
    );
    assert!(resolve_call(b"%d %d", 2).is_ok());
}

#[test]
fn parse_error_is_surfaced_before_arity() {
    match resolve_call(b"%ld", 1) {
        Err(CallError::Parse(e)) => {
            assert_eq!(e.kind, ScanErrorKind::LongInt);
            assert_eq!((e.start, e.end), (0, Some(2)));
        }
        other => panic!("expected a parse error, got {:?}", other),
    }
}

#[test]
fn soft_argument_limit_is_thirty_two() {
    assert!(!exceeds_arg_limit(0));
    assert!(!exceeds_arg_limit(32));
    assert!(exceeds_arg_limit(33));
}

#[test]
fn thirty_three_specifiers_still_resolve() {
    let mut fmt = String::new();
    for _ in 0..33 {
        fmt.push_str("%d ");
    }
    let r = resolve_call(fmt.as_bytes(), 33).expect("should resolve");
    assert_eq!(r.len(), 33);
    assert!(r.iter().all(|t| *t == SizedType::I32));
    assert!(exceeds_arg_limit(33));
}

#[test]
fn error_slice_covers_the_offending_text() {
    let fmt = b"go %ld!";
    match resolve_call(fmt, 1) {
        Err(CallError::Parse(e)) => {
            assert_eq!(error_slice(fmt, &e), b"%ld".to_vec());
        }
        other => panic!("expected a parse error, got {:?}", other),
    }
}

#[test]
fn error_slice_of_variable_width_covers_the_star() {
    let fmt = b"%*d";
    match resolve_call(fmt, 1) {
        Err(CallError::Parse(e)) => {
            assert_eq!(error_slice(fmt, &e), b"%*".to_vec());
        }
        other => panic!("expected a parse error, got {:?}", other),
    }
}

#[test]
fn error_slice_of_unterminated_runs_to_the_end() {
    let fmt = b"tail %-05";
    match resolve_call(fmt, 0) {
        Err(CallError::Parse(e)) => {
            assert_eq!(e.kind, ScanErrorKind::EndedEarly);
            assert_eq!(error_slice(fmt, &e), b"%-05".to_vec());
        }
        other => panic!("expected a parse error, got {:?}", other),
    }
}
