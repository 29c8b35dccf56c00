//! Scanner behaviour: literal text, flags, width, precision, size prefixes,
//! the full type/size resolution table, and error spans.

use nvptx_vprintf::{
    is_flag, resolve_type, scan_format, type_char, FSize, FType, ParseError, ScanErrorKind,
    SizedType,
};

fn types_of(fmt: &str) -> Vec<SizedType> {
    scan_format(fmt.as_bytes()).expect("format should scan")
}

fn error_of(fmt: &str) -> ParseError {
    scan_format(fmt.as_bytes()).expect_err("format should fail to scan")
}

#[test]
fn literal_only_empty_string() {
    assert_eq!(types_of(""), vec![]);
}

#[test]
fn literal_only_plain_text() {
    assert_eq!(types_of("hello world"), vec![]);
}

#[test]
fn literal_only_escaped_percent() {
    assert_eq!(types_of("hello %% world"), vec![]);
    assert_eq!(types_of("%%"), vec![]);
    assert_eq!(types_of("%%%%"), vec![]);
    assert_eq!(types_of("100%% done"), vec![]);
}

#[test]
fn table_signed_int() {
    assert_eq!(types_of("%d"), vec![SizedType::I32]);
    assert_eq!(types_of("%i"), vec![SizedType::I32]);
    assert_eq!(types_of("%lld"), vec![SizedType::I64]);
    assert_eq!(types_of("%lli"), vec![SizedType::I64]);
}

#[test]
fn table_signed_int_rejections() {
    let e = error_of("%hd");
    assert_eq!(e.kind, ScanErrorKind::ShortInt);
    assert_eq!(e.kind.message(), "short int is unimplemented");
    let e = error_of("%ld");
    assert_eq!(e.kind, ScanErrorKind::LongInt);
    assert_eq!(e.kind.message(), "long int is not supported");
    let e = error_of("%li");
    assert_eq!(e.kind, ScanErrorKind::LongInt);
}

#[test]
fn table_unsigned_int() {
    assert_eq!(types_of("%u"), vec![SizedType::U32]);
    assert_eq!(types_of("%o"), vec![SizedType::U32]);
    assert_eq!(types_of("%x"), vec![SizedType::U32]);
    assert_eq!(types_of("%X"), vec![SizedType::U32]);
    assert_eq!(types_of("%hu"), vec![SizedType::U16]);
    assert_eq!(types_of("%ho"), vec![SizedType::U16]);
    assert_eq!(types_of("%hx"), vec![SizedType::U16]);
    assert_eq!(types_of("%hX"), vec![SizedType::U16]);
    assert_eq!(types_of("%llu"), vec![SizedType::U64]);
    assert_eq!(types_of("%llo"), vec![SizedType::U64]);
    assert_eq!(types_of("%llx"), vec![SizedType::U64]);
    assert_eq!(types_of("%llX"), vec![SizedType::U64]);
}

#[test]
fn table_unsigned_int_rejections() {
    let e = error_of("%lu");
    assert_eq!(e.kind, ScanErrorKind::LongUnsignedInt);
    assert_eq!(e.kind.message(), "long unsigned int is unimplemented");
    let e = error_of("%lx");
    assert_eq!(e.kind, ScanErrorKind::LongUnsignedInt);
}

#[test]
fn table_float() {
    for fmt in ["%e", "%E", "%f", "%F", "%g", "%G", "%a", "%A"] {
        assert_eq!(types_of(fmt), vec![SizedType::Double], "for {}", fmt);
    }
}

#[test]
fn table_float_rejections() {
    for fmt in ["%hf", "%lf", "%llf", "%he", "%lG"] {
        let e = error_of(fmt);
        assert_eq!(e.kind, ScanErrorKind::FloatSize, "for {}", fmt);
        assert_eq!(
            e.kind.message(),
            "Size specifiers are not allowed for floating-point arguments"
        );
    }
}

#[test]
fn table_char_str_pointer() {
    assert_eq!(types_of("%c"), vec![SizedType::U32]);
    assert_eq!(types_of("%s"), vec![SizedType::StrPtr]);
    assert_eq!(types_of("%p"), vec![SizedType::VoidPtr]);
}

#[test]
fn table_char_str_pointer_rejections() {
    let e = error_of("%hc");
    assert_eq!(e.kind, ScanErrorKind::CharSize);
    assert_eq!(e.kind.message(), "Size specifiers are not allowed for char arguments");
    let e = error_of("%ls");
    assert_eq!(e.kind, ScanErrorKind::StrSize);
    assert_eq!(e.kind.message(), "Size specifiers are not allowed for str arguments");
    let e = error_of("%llp");
    assert_eq!(e.kind, ScanErrorKind::PointerSize);
    assert_eq!(e.kind.message(), "Size specifiers are not allowed for pointer arguments");
}

#[test]
fn flags_width_precision_are_skipped() {
    assert_eq!(types_of("%-d"), vec![SizedType::I32]);
    assert_eq!(types_of("%+d"), vec![SizedType::I32]);
    assert_eq!(types_of("%0d"), vec![SizedType::I32]);
    assert_eq!(types_of("% d"), vec![SizedType::I32]);
    assert_eq!(types_of("%#x"), vec![SizedType::U32]);
    assert_eq!(types_of("%-+0 #d"), vec![SizedType::I32]);
    assert_eq!(types_of("%12d"), vec![SizedType::I32]);
    assert_eq!(types_of("%.5f"), vec![SizedType::Double]);
    assert_eq!(types_of("%08.3f"), vec![SizedType::Double]);
    assert_eq!(types_of("%5.2f"), vec![SizedType::Double]);
    assert_eq!(types_of("%.s"), vec![SizedType::StrPtr]);
}

#[test]
fn several_specifiers_in_order() {
    assert_eq!(
        types_of("x=%d y=%s %% z=%f"),
        vec![SizedType::I32, SizedType::StrPtr, SizedType::Double]
    );
}

#[test]
fn variable_width_is_rejected() {
    let e = error_of("%*d");
    assert_eq!(e.kind, ScanErrorKind::VariableWidth);
    assert_eq!(e.kind.message(), "variable width arguments are not yet supported");
    assert_eq!((e.start, e.end), (0, Some(1)));
}

#[test]
fn variable_precision_is_rejected() {
    let e = error_of("%.*f");
    assert_eq!(e.kind, ScanErrorKind::VariablePrecision);
    assert_eq!(e.kind.message(), "cuda does not support variable precision arguments");
    assert_eq!((e.start, e.end), (0, Some(2)));
}

#[test]
fn unterminated_specification() {
    let e = error_of("%");
    assert_eq!(e.kind, ScanErrorKind::EndedEarly);
    assert_eq!(e.kind.message(), "ended early");
    assert_eq!((e.start, e.end), (0, None));
    let e = error_of("value: %-05");
    assert_eq!(e.kind, ScanErrorKind::EndedEarly);
    assert_eq!((e.start, e.end), (7, None));
    let e = error_of("%ll");
    assert_eq!(e.kind, ScanErrorKind::EndedEarly);
}

#[test]
fn invalid_type_character() {
    let e = error_of("%q");
    assert_eq!(e.kind, ScanErrorKind::InvalidType);
    assert_eq!(e.kind.message(), "Invalid type specifier");
    assert_eq!((e.start, e.end), (0, Some(1)));
}

#[test]
fn double_h_is_not_a_size_prefix() {
    // A single leading `h` is the only short form recognized: in `%hhd` the
    // first `h` is consumed as the prefix and the second is read as the type
    // character, which is invalid.
    let e = error_of("%hhd");
    assert_eq!(e.kind, ScanErrorKind::InvalidType);
    assert_eq!((e.start, e.end), (0, Some(2)));
}

#[test]
fn first_error_wins() {
    let e = error_of("%d %q %*d");
    assert_eq!(e.kind, ScanErrorKind::InvalidType);
    assert_eq!((e.start, e.end), (3, Some(4)));
}

#[test]
fn error_spans_cover_the_specifier() {
    let e = error_of("go %ld!");
    assert_eq!(e.kind, ScanErrorKind::LongInt);
    assert_eq!((e.start, e.end), (3, Some(5)));
}

#[test]
fn rescanning_is_idempotent() {
    for fmt in ["", "hello %% world", "%d %u %s", "%ld", "%", "%q", "%-12.4f %llx %p"] {
        let first = scan_format(fmt.as_bytes());
        let second = scan_format(fmt.as_bytes());
        assert_eq!(first, second, "for {}", fmt);
    }
}

#[test]
fn multibyte_literal_text_is_skipped() {
    // Non-ASCII literal text never matches any specifier byte, so it is
    // walked over like any other literal text; offsets stay byte offsets.
    assert_eq!(types_of("h\u{e9}llo %d \u{2014} fin"), vec![SizedType::I32]);
}

#[test]
fn multibyte_byte_after_percent_is_an_invalid_type() {
    // U+00E9 is two bytes; the first stands where the type character should be.
    let e = error_of("%\u{e9}");
    assert_eq!(e.kind, ScanErrorKind::InvalidType);
    assert_eq!((e.start, e.end), (0, Some(1)));
}

#[test]
fn flag_characters_are_exactly_five() {
    for c in [b'-', b'+', b'0', b' ', b'#'] {
        assert!(is_flag(c), "for {}", c as char);
    }
    for c in [b'd', b'1', b'%', b'.', b'*', b'h'] {
        assert!(!is_flag(c), "for {}", c as char);
    }
}

#[test]
fn type_characters_map_to_their_families() {
    assert_eq!(type_char(b'd'), Some(FType::Integer { signed: true }));
    assert_eq!(type_char(b'i'), Some(FType::Integer { signed: true }));
    assert_eq!(type_char(b'u'), Some(FType::Integer { signed: false }));
    assert_eq!(type_char(b'o'), Some(FType::Integer { signed: false }));
    assert_eq!(type_char(b'x'), Some(FType::Integer { signed: false }));
    assert_eq!(type_char(b'X'), Some(FType::Integer { signed: false }));
    for c in [b'e', b'E', b'f', b'F', b'g', b'G', b'a', b'A'] {
        assert_eq!(type_char(c), Some(FType::Float), "for {}", c as char);
    }
    assert_eq!(type_char(b'c'), Some(FType::Char));
    assert_eq!(type_char(b's'), Some(FType::Str));
    assert_eq!(type_char(b'p'), Some(FType::Pointer));
    assert_eq!(type_char(b'q'), None);
    assert_eq!(type_char(b'n'), None);
    assert_eq!(type_char(b'%'), None);
}

#[test]
fn resolution_table_as_a_unit() {
    let signed = FType::Integer { signed: true };
    let unsigned = FType::Integer { signed: false };
    assert_eq!(resolve_type(signed, None), Ok(SizedType::I32));
    assert_eq!(resolve_type(signed, Some(FSize::Short)), Err(ScanErrorKind::ShortInt));
    assert_eq!(resolve_type(signed, Some(FSize::Long)), Err(ScanErrorKind::LongInt));
    assert_eq!(resolve_type(signed, Some(FSize::LongLong)), Ok(SizedType::I64));
    assert_eq!(resolve_type(unsigned, None), Ok(SizedType::U32));
    assert_eq!(resolve_type(unsigned, Some(FSize::Short)), Ok(SizedType::U16));
    assert_eq!(resolve_type(unsigned, Some(FSize::Long)), Err(ScanErrorKind::LongUnsignedInt));
    assert_eq!(resolve_type(unsigned, Some(FSize::LongLong)), Ok(SizedType::U64));
    assert_eq!(resolve_type(FType::Float, None), Ok(SizedType::Double));
    assert_eq!(resolve_type(FType::Float, Some(FSize::Short)), Err(ScanErrorKind::FloatSize));
    assert_eq!(resolve_type(FType::Char, None), Ok(SizedType::U32));
    assert_eq!(resolve_type(FType::Char, Some(FSize::Long)), Err(ScanErrorKind::CharSize));
    assert_eq!(resolve_type(FType::Str, None), Ok(SizedType::StrPtr));
    assert_eq!(resolve_type(FType::Str, Some(FSize::LongLong)), Err(ScanErrorKind::StrSize));
    assert_eq!(resolve_type(FType::Pointer, None), Ok(SizedType::VoidPtr));
    assert_eq!(resolve_type(FType::Pointer, Some(FSize::Short)), Err(ScanErrorKind::PointerSize));
}
