use vdso_kit::entry_points::{join_params, param_names, scan_entry_points};

const SAMPLE_API: &str = r#"use core::sync::atomic::Ordering;

#[unsafe(no_mangle)]
pub extern "C" fn get_shared() -> ArgumentExample {
    ArgumentExample { i: 0 }
}

#[unsafe(no_mangle)]
pub extern "C" fn set_shared(i: usize) {
    let _ = i;
}

fn helper() -> usize {
    1
}

#[unsafe(no_mangle)]
pub extern "C" fn test_args(a: Option<usize>, b: Result<usize, ()>, c: (usize, usize)) -> (Option<usize>, Result<usize, ()>, (usize, usize)) {
    (a, b, c)
}
"#;

#[test]
fn scan_finds_declared_entry_points() {
    let entries = scan_entry_points(SAMPLE_API);
    assert_eq!(entries.len(), 3);
    assert_eq!(entries[0].name, "get_shared");
    assert_eq!(entries[0].sig, "() -> ArgumentExample");
    assert_eq!(entries[1].name, "set_shared");
    assert_eq!(entries[1].sig, "(i: usize)");
    assert_eq!(entries[2].name, "test_args");
    assert_eq!(
        entries[2].sig,
        "(a: Option<usize>, b: Result<usize, ()>, c: (usize, usize)) -> (Option<usize>, Result<usize, ()>, (usize, usize))"
    );
}

#[test]
fn scan_skips_plain_functions() {
    let src = "pub extern \"C\" fn loose() -> usize {\n    1\n}\n";
    assert_eq!(scan_entry_points(src).len(), 0);
}

#[test]
fn scan_skips_multi_line_signatures() {
    let src = "#[unsafe(no_mangle)]\npub extern \"C\" fn broken(\n    a: usize,\n) -> usize {\n    a\n}\n";
    assert_eq!(scan_entry_points(src).len(), 0);
}

#[test]
fn param_names_simple() {
    let names = param_names("(a: usize, b: bool) -> usize");
    assert_eq!(names, vec!["a".to_string(), "b".to_string()]);
}

#[test]
fn param_names_empty_list() {
    let names = param_names("() -> usize");
    assert!(names.is_empty());
}

#[test]
fn param_names_nested_types() {
    let names =
        param_names("(a: Option<usize>, b: Result<usize, ()>, c: (usize, usize)) -> usize");
    assert_eq!(names, vec!["a".to_string(), "b".to_string(), "c".to_string()]);
}

#[test]
fn join_params_forms_argument_list() {
    let names = vec!["a".to_string(), "b".to_string(), "c".to_string()];
    assert_eq!(join_params(&names), "a, b, c");
    let one = vec!["x".to_string()];
    assert_eq!(join_params(&one), "x");
    let none: Vec<String> = Vec::new();
    assert_eq!(join_params(&none), "");
}
