use blur::shell::{brace_depth, contains, is_program};

#[test]
fn braces_are_counted() {
    assert_eq!(brace_depth(0, "void f() {"), 1);
    assert_eq!(brace_depth(1, "  if (x) { y; }"), 1);
    assert_eq!(brace_depth(1, "}"), 0);
    assert_eq!(brace_depth(0, "}"), -1);
    assert_eq!(brace_depth(0, "{{{"), 3);
    assert_eq!(brace_depth(0, "no braces"), 0);
    assert_eq!(brace_depth(i32::MAX, "{"), i32::MAX);
    assert_eq!(brace_depth(i32::MIN, "}"), i32::MIN);
}

#[test]
fn patterns_are_found() {
    assert!(contains("void blur() { }", "blur()"));
    assert!(contains("abc", ""));
    assert!(contains("", ""));
    assert!(contains("abc", "abc"));
    assert!(contains("aab", "ab"));
    assert!(!contains("abc", "abcd"));
    assert!(!contains("abc", "ac"));
    assert!(!contains("", "a"));
}

#[test]
fn programs_name_the_entry_function() {
    assert!(is_program("void blur() { print(1); }"));
    assert!(is_program("void blur () { }"));
    assert!(!is_program("int x = 5; print(x);"));
    assert!(!is_program("void blur  () { }"));
}
