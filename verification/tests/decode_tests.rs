use backend_dispatch::decode::simple_percent_decode;

#[test]
fn decodes_escapes_and_plus() {
    assert_eq!(simple_percent_decode("a%20b+c"), "a b c");
}

#[test]
fn trailing_incomplete_escape_is_preserved() {
    assert_eq!(simple_percent_decode("100%"), "100%");
    assert_eq!(simple_percent_decode("%4"), "%4");
}

#[test]
fn malformed_escape_passes_through_verbatim() {
    assert_eq!(simple_percent_decode("%zz"), "%zz");
    assert_eq!(simple_percent_decode("a%g1b"), "a%g1b");
}

#[test]
fn decodes_slashes() {
    assert_eq!(simple_percent_decode("%2Ftmp%2Fexports"), "/tmp/exports");
}

#[test]
fn decodes_each_byte_to_its_code_point() {
    assert_eq!(simple_percent_decode("%C3%A9"), "\u{c3}\u{a9}");
    assert_eq!(simple_percent_decode("%ff"), "\u{ff}");
}

#[test]
fn plus_becomes_space_everywhere() {
    assert_eq!(simple_percent_decode("+x+"), " x ");
}

#[test]
fn empty_input_stays_empty() {
    assert_eq!(simple_percent_decode(""), "");
}

#[test]
fn plain_text_is_unchanged() {
    assert_eq!(simple_percent_decode("plain-text_0123"), "plain-text_0123");
}
