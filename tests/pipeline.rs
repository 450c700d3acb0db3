use symon_format::location::location_offset;
use symon_format::pipeline::finish;
use symon_format::error::map_failure;
use symon_format::text::{has_trailing_newline, normalize_newline};
use symon_format::{EngineFailure, FormatError, Span};

fn parsing(start_line: u32, start_column: u32, end_line: u32, end_column: u32) -> EngineFailure {
    EngineFailure::Parsing { start_line, start_column, end_line, end_column }
}

#[test]
fn offset_on_first_line() {
    assert_eq!(location_offset("foo bar", 1, 5), 4);
}

#[test]
fn offset_on_later_line() {
    assert_eq!(location_offset("ab\ncd\nef", 3, 2), 7);
}

#[test]
fn offset_after_multibyte_line() {
    assert_eq!(location_offset("é\nab", 2, 2), 4);
}

#[test]
fn offset_counts_bytes_within_a_line() {
    assert_eq!(location_offset("x = \"é\" ??;", 1, 10), 9);
}

#[test]
fn offset_past_end_is_clamped() {
    assert_eq!(location_offset("ab", 1, 10), 2);
    assert_eq!(location_offset("ab", 5, 1), 2);
    assert_eq!(location_offset("", 1, 1), 0);
}

#[test]
fn offset_of_zero_position_is_start() {
    assert_eq!(location_offset("ab", 0, 0), 0);
}

#[test]
fn parse_error_spans_region() {
    let input = "a = 1;\nb ?? c;\n";
    match map_failure(input, parsing(2, 3, 2, 5)) {
        FormatError::Parse { src, err_span } => {
            assert_eq!(src, input);
            assert_eq!(err_span, Span { offset: 9, length: 2 });
            assert_eq!(&input[9..11], "??");
        }
        e => panic!("unexpected {e:?}"),
    }
}

#[test]
fn parse_error_after_multibyte_characters() {
    let input = "é = 1;\nb ?? c;\n";
    match map_failure(input, parsing(2, 3, 2, 5)) {
        FormatError::Parse { err_span, .. } => {
            assert_eq!(err_span, Span { offset: 10, length: 2 });
            assert_eq!(&input[10..12], "??");
        }
        e => panic!("unexpected {e:?}"),
    }
    let input = "x = \"é\" ??;";
    match map_failure(input, parsing(1, 10, 1, 12)) {
        FormatError::Parse { err_span, .. } => {
            assert_eq!(err_span, Span { offset: 9, length: 2 });
            assert_eq!(&input[9..11], "??");
        }
        e => panic!("unexpected {e:?}"),
    }
}

#[test]
fn parse_error_spanning_lines() {
    let input = "a = 1;\nb ?? c;\n";
    match map_failure(input, parsing(1, 5, 2, 3)) {
        FormatError::Parse { err_span, .. } => {
            assert_eq!(err_span, Span { offset: 4, length: 5 });
        }
        e => panic!("unexpected {e:?}"),
    }
}

#[test]
fn parse_error_with_reversed_positions_is_empty() {
    match map_failure("abc", parsing(1, 3, 1, 1)) {
        FormatError::Parse { err_span, .. } => {
            assert_eq!(err_span, Span { offset: 2, length: 0 });
        }
        e => panic!("unexpected {e:?}"),
    }
}

#[test]
fn query_error_message() {
    let f = EngineFailure::Query { message: "Error parsing query file".to_string(), detail: None };
    match map_failure("", f) {
        FormatError::Query(m) => assert_eq!(m, "Error parsing query file"),
        e => panic!("unexpected {e:?}"),
    }
    let f = EngineFailure::Query {
        message: "Error parsing query file".to_string(),
        detail: Some("Query error at 3:1. Invalid node type foo".to_string()),
    };
    match map_failure("", f) {
        FormatError::Query(m) => {
            assert_eq!(m, "Error parsing query file: Query error at 3:1. Invalid node type foo")
        }
        e => panic!("unexpected {e:?}"),
    }
}

#[test]
fn idempotence_failures() {
    assert!(matches!(map_failure("x", EngineFailure::Idempotence), FormatError::Idempotency));
    assert!(matches!(
        map_failure("x", EngineFailure::IdempotenceParsing),
        FormatError::Idempotency
    ));
}

#[test]
fn other_failures_are_unknown() {
    for f in [EngineFailure::Internal, EngineFailure::PatternDoesNotMatch, EngineFailure::Io] {
        assert!(matches!(map_failure("x", f), FormatError::Unknown));
    }
}

#[test]
fn finish_keeps_output_when_input_ends_with_newline() {
    let r = finish("foo();\n", Ok(b"foo( );\n".to_vec()));
    assert_eq!(r.unwrap(), "foo( );\n");
}

#[test]
fn finish_trims_output_when_input_lacks_newline() {
    let r = finish("signature foo {} foo();foo()", Ok(b"signature foo {\n}\nfoo( );\nfoo( )\n".to_vec()));
    assert_eq!(r.unwrap(), "signature foo {\n}\nfoo( );\nfoo( )");
}

#[test]
fn finish_trims_unicode_white_space() {
    let r = finish("x", Ok("x\u{3000} \n\t\n".as_bytes().to_vec()));
    assert_eq!(r.unwrap(), "x");
}

#[test]
fn finish_rejects_invalid_utf8() {
    let r = finish("x\n", Ok(vec![b'a', 0xff, b'\n']));
    match r {
        Err(FormatError::UTF8(e)) => assert_eq!(e.as_bytes(), &[b'a', 0xff, b'\n'][..]),
        r => panic!("unexpected {r:?}"),
    }
}

#[test]
fn finish_maps_failures() {
    let r = finish("a = 1;\nb ?? c;\n", Err(parsing(2, 3, 2, 5)));
    match r {
        Err(FormatError::Parse { err_span, .. }) => {
            assert_eq!(err_span, Span { offset: 9, length: 2 })
        }
        r => panic!("unexpected {r:?}"),
    }
    assert!(matches!(finish("x", Err(EngineFailure::Idempotence)), Err(FormatError::Idempotency)));
}

#[test]
fn finishing_twice_is_stable() {
    let out = b"a {\n    b;\n}\n".to_vec();
    for input in ["a{b;}", "a{b;}\n"] {
        let once = finish(input, Ok(out.clone())).unwrap();
        let twice = finish(&once, Ok(out.clone())).unwrap();
        assert_eq!(once, twice);
    }
}

#[test]
fn newline_convention() {
    assert!(has_trailing_newline("a\n"));
    assert!(!has_trailing_newline("a"));
    assert!(!has_trailing_newline(""));
    assert!(!has_trailing_newline("a\n "));
    assert_eq!(normalize_newline("a", "b \n\n".to_string()), "b");
    assert_eq!(normalize_newline("a\n", "b \n\n".to_string()), "b \n\n");
    assert_eq!(normalize_newline("", "\n".to_string()), "");
}
