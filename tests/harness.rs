use symon_format::harness::{
    baseline_name, contains_bytes, is_denied, is_multi_part, is_source_file, path_ends_with,
    summarize,
};

#[test]
fn deny_list_matches_whole_components() {
    assert!(is_denied("/corpus/tools/preprocessor.symon"));
    assert!(is_denied("tools/preprocessor.symon"));
    assert!(is_denied("/x/types/unit/hooks-fail.symon"));
    assert!(is_denied("/x/types/vector/legacy-syntax-fail.symon"));
    assert!(is_denied("/x/types/unit/switch-attributes-fail.symon"));
    assert!(!is_denied("/corpus/mytools/preprocessor.symon"));
    assert!(!is_denied("/x/types/unit/hooks-fail.symon.bak"));
    assert!(!is_denied("/x/types/unit/hooks.symon"));
}

#[test]
fn path_suffix_by_components() {
    assert!(path_ends_with("a/b/c", "b/c"));
    assert!(path_ends_with("b/c", "b/c"));
    assert!(!path_ends_with("ab/c", "b/c"));
    assert!(!path_ends_with("c", "b/c"));
}

#[test]
fn source_files_by_extension() {
    assert!(is_source_file("corpus/a.symon"));
    assert!(is_source_file("b.symon"));
    assert!(is_source_file("x/..symon"));
    assert!(!is_source_file("corpus/.symon"));
    assert!(!is_source_file(".symon"));
    assert!(!is_source_file("corpus/a.symon.expected"));
    assert!(!is_source_file("corpus/a.spicy"));
}

#[test]
fn multi_part_marker() {
    assert!(is_multi_part("# @TEST-START-FILE a.symon\nmodule A;"));
    assert!(is_multi_part("@TEST-START-FILE"));
    assert!(!is_multi_part("# @TEST-START-FIL"));
    assert!(!is_multi_part(""));
}

#[test]
fn byte_search() {
    assert!(contains_bytes(b"abcabd", b"abd"));
    assert!(contains_bytes(b"abc", b""));
    assert!(!contains_bytes(b"ab", b"abc"));
    assert!(!contains_bytes(b"abcab", b"abd"));
}

#[test]
fn baseline_file_name() {
    assert_eq!(baseline_name("foo.symon"), "foo.symon.expected");
}

#[test]
fn report_lists_failures() {
    let results = vec![
        ("a.symon".to_string(), true),
        ("b.symon".to_string(), false),
        ("c.symon".to_string(), false),
    ];
    let report = summarize(&results);
    assert_eq!(report.attempted, 3);
    assert_eq!(report.failures, vec!["b.symon".to_string(), "c.symon".to_string()]);
    assert!(!report.passed());
}

#[test]
fn report_on_no_files_passes() {
    let report = summarize(&Vec::new());
    assert_eq!(report.attempted, 0);
    assert!(report.failures.is_empty());
    assert!(report.passed());
}

#[test]
fn report_with_all_successes_passes() {
    let results = vec![("a.symon".to_string(), true), ("b.symon".to_string(), true)];
    let report = summarize(&results);
    assert_eq!(report.attempted, 2);
    assert!(report.passed());
}
