use letterboxd::form::form_encode;
use letterboxd::form::is_form_unchanged;
use letterboxd::form::push_form_encoded;

fn encoded(bytes: &[u8]) -> String {
    String::from_utf8(form_encode(bytes)).unwrap()
}

#[test]
fn letters_digits_and_four_marks_stand_for_themselves() {
    assert_eq!(encoded(b"abcxyzABCXYZ0123456789*-._"), "abcxyzABCXYZ0123456789*-._");
    assert_eq!(encoded(b""), "");
}

#[test]
fn a_space_becomes_a_plus() {
    assert_eq!(encoded(b" "), "+");
    assert_eq!(encoded(b"Fight Club"), "Fight+Club");
}

#[test]
fn other_bytes_become_upper_case_hex() {
    assert_eq!(encoded(b"&"), "%26");
    assert_eq!(encoded(b"="), "%3D");
    assert_eq!(encoded(b"+"), "%2B");
    assert_eq!(encoded(b"%"), "%25");
    assert_eq!(encoded(b"~"), "%7E");
    assert_eq!(encoded(b"/"), "%2F");
    assert_eq!(encoded(&[0x00]), "%00");
    assert_eq!(encoded(&[0x0a]), "%0A");
    assert_eq!(encoded(&[0x7f]), "%7F");
    assert_eq!(encoded(&[0x80]), "%80");
    assert_eq!(encoded(&[0xff]), "%FF");
    assert_eq!(encoded("\u{e9}".as_bytes()), "%C3%A9");
}

#[test]
fn the_bytes_around_the_unchanged_ranges_are_encoded() {
    assert_eq!(encoded(b"/0"), "%2F0");
    assert_eq!(encoded(b"9:"), "9%3A");
    assert_eq!(encoded(b"@A"), "%40A");
    assert_eq!(encoded(b"Z["), "Z%5B");
    assert_eq!(encoded(b"`a"), "%60a");
    assert_eq!(encoded(b"z{"), "z%7B");
    assert_eq!(encoded(b")*+,-./"), "%29*%2B%2C-.%2F");
    assert_eq!(encoded(b"^_`"), "%5E_%60");
}

#[test]
fn every_byte_agrees_with_the_rule() {
    for b in 0..=255u8 {
        let expected = if b.is_ascii_alphanumeric() || b"*-._".contains(&b) {
            String::from(b as char)
        } else if b == b' ' {
            String::from("+")
        } else {
            format!("%{:02X}", b)
        };
        assert_eq!(encoded(&[b]), expected);
        assert_eq!(is_form_unchanged(b), b.is_ascii_alphanumeric() || b"*-._".contains(&b));
    }
}

#[test]
fn push_form_encoded_appends() {
    let mut out = b"q=".to_vec();
    push_form_encoded(&mut out, b"a b&c");
    assert_eq!(out, b"q=a+b%26c".to_vec());
}
