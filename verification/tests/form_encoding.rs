//! The form-urlencoded conventions of the OAuth endpoints.

use dropbox_rs::form::form_encode;

#[test]
fn keeps_safe_characters_and_escapes_the_rest() {
    assert_eq!(form_encode("abcXYZ019*-._"), "abcXYZ019*-._");
    assert_eq!(form_encode("a b"), "a+b");
    assert_eq!(form_encode("a/b:c"), "a%2Fb%3Ac");
    assert_eq!(form_encode("100%"), "100%25");
}

#[test]
fn escapes_multibyte_characters_bytewise() {
    assert_eq!(form_encode("é"), "%C3%A9");
    assert_eq!(form_encode("\u{1f600}"), "%F0%9F%98%80");
}

#[test]
fn agrees_with_an_independent_encoder() {
    for sample in ["http://localhost/cb?x=1", "a b+c", "tëst"] {
        let ours = form_encode(sample);
        let theirs = serde_urlencoded::to_string([("k", sample)]).unwrap();
        assert_eq!(format!("k={}", ours), theirs);
    }
}
