use gptxt::normalize::normalize_result;

#[test]
fn escaped_newline_becomes_line_feed() {
    assert_eq!(normalize_result("a\\nb"), "a\nb");
}

#[test]
fn escaped_carriage_return_becomes_control_character() {
    assert_eq!(normalize_result("a\\r\\nb"), "a\r\nb");
}

#[test]
fn real_newline_is_unchanged() {
    assert_eq!(normalize_result("a\nb\r\n"), "a\nb\r\n");
}

#[test]
fn other_escapes_are_kept() {
    assert_eq!(normalize_result("a\\tb\\\\x"), "a\\tb\\\\x");
}

#[test]
fn doubled_backslash_before_n() {
    assert_eq!(normalize_result("\\\\n"), "\\\n");
}

#[test]
fn empty_text_stays_empty() {
    assert_eq!(normalize_result(""), "");
}

#[test]
fn trailing_backslash_is_kept() {
    assert_eq!(normalize_result("end\\"), "end\\");
}
