use biedbot::csrf::CsrfExtractor;

fn token(text: &str) -> Option<String> {
    CsrfExtractor::extract(text)
}

#[test]
fn extract_finds_token_between_fragments() {
    assert_eq!(token("foo=bar; crf=XYZ123; baz=qux"), Some("XYZ123".to_string()));
}

#[test]
fn extract_without_marker_is_none() {
    assert_eq!(token("no token here"), None);
}

#[test]
fn extract_at_start_middle_and_end() {
    assert_eq!(token("crf=abc;x=1;y=2"), Some("abc".to_string()));
    assert_eq!(token("x=1;crf=abc;y=2"), Some("abc".to_string()));
    assert_eq!(token("x=1;y=2;crf=abc"), Some("abc".to_string()));
}

#[test]
fn extract_token_ends_at_end_of_text() {
    assert_eq!(token("a=b; crf=tail"), Some("tail".to_string()));
}

#[test]
fn extract_token_ends_at_first_semicolon() {
    assert_eq!(token("crf=one;two;three"), Some("one".to_string()));
}

#[test]
fn extract_empty_value() {
    assert_eq!(token("crf=;rest"), Some(String::new()));
    assert_eq!(token("crf="), Some(String::new()));
}

#[test]
fn extract_takes_first_of_two_markers() {
    assert_eq!(token("crf=first;crf=second"), Some("first".to_string()));
}

#[test]
fn extract_from_decoded_session_cookie() {
    assert_eq!(token(";crf=tok42;"), Some("tok42".to_string()));
}

#[test]
fn extract_needs_whole_marker() {
    assert_eq!(token(""), None);
    assert_eq!(token("crf"), None);
    assert_eq!(token("cr=f"), None);
    assert_eq!(token("crf:abc"), None);
    assert_eq!(token("CRF=abc"), None);
}

#[test]
fn extract_marker_inside_longer_key() {
    assert_eq!(token("xcrf=abc"), Some("abc".to_string()));
}

#[test]
fn extract_keeps_other_characters_of_value() {
    assert_eq!(token("crf=a=b c,d; e"), Some("a=b c,d".to_string()));
    assert_eq!(token("k=v;crf=\u{17c}\u{f3}\u{142}w;"), Some("\u{17c}\u{f3}\u{142}w".to_string()));
}

#[test]
fn extract_leaves_input_as_it_was() {
    let text = String::from("foo=bar; crf=XYZ123; baz=qux");
    let _ = CsrfExtractor::extract(&text);
    assert_eq!(text, "foo=bar; crf=XYZ123; baz=qux");
}
