use file_merger::input::{has_wildcard, strip_line};

#[test]
fn strip_line_trims_whitespace_both_ends() {
    assert_eq!(strip_line("  hello \r\n"), "hello");
    assert_eq!(strip_line("\thello"), "hello");
    assert_eq!(strip_line("hello"), "hello");
}

#[test]
fn strip_line_quoted_path_equals_bare_path() {
    // a pasted quoted path behaves exactly like the bare one
    assert_eq!(strip_line("\"C:\\a\\b.txt\""), strip_line("C:\\a\\b.txt"));
    assert_eq!(strip_line("\"C:\\a\\b.txt\""), "C:\\a\\b.txt");
}

#[test]
fn strip_line_removes_one_quote_layer_only() {
    assert_eq!(strip_line("\"\"x\"\""), "\"x\"");
    assert_eq!(strip_line("\"x"), "x");
    assert_eq!(strip_line("x\""), "x");
}

#[test]
fn strip_line_whitespace_before_quotes() {
    assert_eq!(strip_line(" \"a b\" \n"), "a b");
}

#[test]
fn strip_line_empty_and_blank() {
    assert_eq!(strip_line(""), "");
    assert_eq!(strip_line("   \n"), "");
    assert_eq!(strip_line("\""), "");
}

#[test]
fn wildcard_detection() {
    assert!(has_wildcard("C:\\Users\\root\\Downloads\\*"));
    assert!(has_wildcard("*.txt"));
    assert!(!has_wildcard("plain/path.txt"));
    assert!(!has_wildcard(""));
}
