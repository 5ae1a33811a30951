use letterboxd::helper::hmac_sha256;
use letterboxd::helper::nonce;
use letterboxd::helper::now;
use letterboxd::helper::sign_bytes;
use letterboxd::helper::timestamp_of;
use letterboxd::helper::signature_text;
use letterboxd::helper::Nonce;
use letterboxd::signing::attach_signature;
use letterboxd::signing::build_canonical_message;
use letterboxd::signing::build_canonical_url;
use letterboxd::signing::call_fits;
use letterboxd::signing::fresh_signed_url;
use letterboxd::signing::str_or_empty;
use letterboxd::signing::generate_signed_url;
use letterboxd::signing::sign;
use letterboxd::signing::sign_url_text;
use letterboxd::signing::signed_url_at;
use letterboxd::signing::url_with_nonce_and_timestamp;
use letterboxd::signing::Method;
use letterboxd::signing::API_BASE_URL;
use letterboxd::text::decimal_string;
use letterboxd::text::push_decimal;
use letterboxd::ApiKeyPair;
use std::collections::HashSet;

const NONCE: u128 = 0x9d54386f_118e_4876_b8e8_92ba37d451e7;
const NONCE_TEXT: &str = "9d54386f-118e-4876-b8e8-92ba37d451e7";
const TIMESTAMP: u64 = 1499803866;

fn pair() -> ApiKeyPair {
    ApiKeyPair::new(String::from("key"), String::from("secret"))
}

fn count_nul(bytes: &[u8]) -> usize {
    bytes.iter().filter(|b| **b == 0).count()
}

#[test]
fn hmac_sha256_matches_a_published_vector() {
    // the second vector of RFC 4231
    assert_eq!(
        hmac_sha256("Jefe", "what do ya want for nothing?"),
        "5bdcc146bf60754e6a042426089575c75a003f089d2739839dec58b964ec3843"
    );
}

#[test]
fn hmac_sha256_of_empty_key_and_message() {
    assert_eq!(
        hmac_sha256("", ""),
        "b613679a0814d9ec772f95d778c35fc5ff1697c493715653c6c712144292c5ad"
    );
}

#[test]
fn hmac_sha256_with_a_key_longer_than_a_block() {
    let key = "k".repeat(100);
    let message = "m".repeat(1000);
    assert_eq!(
        hmac_sha256(&key, &message),
        "6f9a8e13def757dd3ec42066e0030ab9a39a34057fa4e1ff1ee8ce97d46e53d4"
    );
}

#[test]
fn hmac_sha256_signs_the_utf8_bytes() {
    assert_eq!(
        hmac_sha256("secret", "GET\0h\u{e9}llo\0w\u{f6}rld"),
        "9e0b868f3bfe3deb37189780fefd097a02dc7bbd0673718f76a0fc9626f35198"
    );
}

#[test]
fn sign_bytes_agrees_with_hmac_sha256() {
    assert_eq!(
        sign_bytes(b"Jefe", b"what do ya want for nothing?"),
        hmac_sha256("Jefe", "what do ya want for nothing?")
    );
}

#[test]
fn signature_text_is_lower_case_hex() {
    assert_eq!(signature_text(&[]), "");
    assert_eq!(signature_text(&[0x00]), "00");
    assert_eq!(signature_text(&[0x00, 0x0f, 0xa5, 0xff]), "000fa5ff");
    assert_eq!(signature_text(&[0xde, 0xad, 0xbe, 0xef]), "deadbeef");
    assert_eq!(signature_text(&[0x01, 0x23, 0x45, 0x67, 0x89, 0xab, 0xcd, 0xef]), "0123456789abcdef");
}

#[test]
fn decimal_string_of_edge_values() {
    assert_eq!(decimal_string(0), "0");
    assert_eq!(decimal_string(9), "9");
    assert_eq!(decimal_string(10), "10");
    assert_eq!(decimal_string(1499803866), "1499803866");
    assert_eq!(decimal_string(u64::MAX), "18446744073709551615");
}

#[test]
fn push_decimal_appends() {
    let mut text = String::from("timestamp=");
    push_decimal(&mut text, 1234567890);
    assert_eq!(text, "timestamp=1234567890");
}

#[test]
fn nonce_text_is_a_hyphenated_lower_case_uuid() {
    assert_eq!(Nonce::from_u128(NONCE).to_text(), NONCE_TEXT);
    assert_eq!(Nonce::from_u128(0).to_text(), "00000000-0000-0000-0000-000000000000");
    assert_eq!(Nonce::from_u128(u128::MAX).to_text(), "ffffffff-ffff-ffff-ffff-ffffffffffff");
    assert_eq!(
        Nonce::from_u128(0x0123456789abcdef0123456789abcdef).to_text(),
        "01234567-89ab-cdef-0123-456789abcdef"
    );
}

#[test]
fn nonce_text_agrees_with_the_uuid_crate() {
    let parsed = uuid::Uuid::parse_str(NONCE_TEXT).unwrap();
    assert_eq!(parsed.as_u128(), NONCE);
    assert_eq!(Nonce::from_u128(parsed.as_u128()).as_u128(), NONCE);
}

#[test]
fn nonce_is_a_random_uuid() {
    for _ in 0..100 {
        let n = nonce();
        let text = n.to_text();
        assert_eq!(text.len(), 36);
        assert_eq!(&text[14..15], "4");
        assert!(matches!(&text[19..20], "8" | "9" | "a" | "b"));
        assert_eq!(n.as_u128() & 0x0000_0000_0000_f000_c000_0000_0000_0000, 0x0000_0000_0000_4000_8000_0000_0000_0000);
    }
}

#[test]
fn nonces_do_not_repeat() {
    let mut seen = HashSet::new();
    for _ in 0..10_000 {
        assert!(seen.insert(nonce().as_u128()));
    }
}

#[test]
fn now_is_a_plausible_time() {
    let first = now();
    let second = now();
    // after 2020-01-01 and before 2100-01-01
    assert!(first > 1_577_836_800);
    assert!(first < 4_102_444_800);
    assert!(second >= first);
    assert!(second - first < 60);
}

#[test]
fn method_names_are_upper_case() {
    assert_eq!(Method::Get.as_str(), "GET");
    assert_eq!(Method::Post.as_str(), "POST");
    assert_eq!(Method::Patch.as_str(), "PATCH");
    assert_eq!(Method::Delete.as_str(), "DELETE");
}

#[test]
fn canonical_url_with_query() {
    assert_eq!(
        build_canonical_url(API_BASE_URL, "film/2a9q", "key", Nonce::from_u128(NONCE), TIMESTAMP, "foo=bar"),
        "https://api.letterboxd.com/api/v0/film/2a9q?apikey=key&nonce=9d54386f-118e-4876-b8e8-92ba37d451e7&timestamp=1499803866&foo=bar"
    );
}

#[test]
fn canonical_url_without_query_has_no_trailing_separator() {
    assert_eq!(
        build_canonical_url(API_BASE_URL, "film/2a9q", "key", Nonce::from_u128(NONCE), TIMESTAMP, ""),
        "https://api.letterboxd.com/api/v0/film/2a9q?apikey=key&nonce=9d54386f-118e-4876-b8e8-92ba37d451e7&timestamp=1499803866"
    );
}

#[test]
fn canonical_url_takes_the_query_as_it_is() {
    assert_eq!(
        build_canonical_url("http://localhost:8080/", "search", "k y", Nonce::from_u128(0), 0, "input=Fight%20Club&x=a b"),
        "http://localhost:8080/search?apikey=k y&nonce=00000000-0000-0000-0000-000000000000&timestamp=0&input=Fight%20Club&x=a b"
    );
}

#[test]
fn canonical_message_joins_with_nul_bytes() {
    assert_eq!(
        build_canonical_message(Method::Post, "http://x/y?z", b"{\"a\":1}"),
        b"POST\0http://x/y?z\0{\"a\":1}".to_vec()
    );
}

#[test]
fn canonical_message_has_two_separators_whatever_is_empty() {
    let with_all = build_canonical_message(Method::Get, "http://x/y?apikey=k&q=1", b"body");
    let no_body = build_canonical_message(Method::Get, "http://x/y?apikey=k&q=1", b"");
    let no_query = build_canonical_message(Method::Get, "http://x/y?apikey=k", b"body");
    let neither = build_canonical_message(Method::Get, "http://x/y?apikey=k", b"");
    let nothing = build_canonical_message(Method::Delete, "", b"");
    assert_eq!(count_nul(&with_all), 2);
    assert_eq!(count_nul(&no_body), 2);
    assert_eq!(count_nul(&no_query), 2);
    assert_eq!(count_nul(&neither), 2);
    assert_eq!(nothing, b"DELETE\0\0".to_vec());
    assert_eq!(*no_body.last().unwrap(), 0);
}

#[test]
fn canonical_message_counts_the_nul_bytes_of_its_parts() {
    let message = build_canonical_message(Method::Patch, "a\0b", b"\0\0c");
    assert_eq!(count_nul(&message), 2 + 1 + 2);
}

#[test]
fn sign_gives_the_signature_of_the_example_call() {
    let signature = sign(
        Method::Get,
        API_BASE_URL,
        "film/2a9q",
        "foo=bar",
        b"",
        &pair(),
        Nonce::from_u128(NONCE),
        TIMESTAMP,
    );
    assert_eq!(signature, "7b4aac67566be6709d4894c28c1a8c7257fa5f66ed1d0df189aa56dc17ed7bda");
    assert_eq!(signature.len(), 64);
}

#[test]
fn sign_url_text_signs_method_url_and_body() {
    let url = "https://api.letterboxd.com/api/v0/lists?apikey=key&nonce=9d54386f-118e-4876-b8e8-92ba37d451e7&timestamp=1499803866";
    assert_eq!(
        sign_url_text(Method::Post, url, b"{\"name\":\"new list\"}", "secret"),
        "4d98c5fde603a291cfccf4c8e2708b6a0f4567368efd853e6a2f5485b1fa7580"
    );
    // another method, another body, another secret: another signature
    assert_ne!(
        sign_url_text(Method::Patch, url, b"{\"name\":\"new list\"}", "secret"),
        "4d98c5fde603a291cfccf4c8e2708b6a0f4567368efd853e6a2f5485b1fa7580"
    );
    assert_ne!(
        sign_url_text(Method::Post, url, b"{\"name\":\"old list\"}", "secret"),
        "4d98c5fde603a291cfccf4c8e2708b6a0f4567368efd853e6a2f5485b1fa7580"
    );
    assert_ne!(
        sign_url_text(Method::Post, url, b"{\"name\":\"new list\"}", "Secret"),
        "4d98c5fde603a291cfccf4c8e2708b6a0f4567368efd853e6a2f5485b1fa7580"
    );
}

#[test]
fn attach_signature_appends_the_last_parameter() {
    assert_eq!(attach_signature(String::from("http://x/y?apikey=k"), "abc"), "http://x/y?apikey=k&signature=abc");
}

#[test]
fn signed_url_of_the_example_call() {
    let signed = url_with_nonce_and_timestamp(
        Method::Get,
        "film/2a9q",
        Some("foo=bar"),
        Some(""),
        &pair(),
        Nonce::from_u128(NONCE),
        TIMESTAMP,
    );
    assert_eq!(
        signed,
        "https://api.letterboxd.com/api/v0/film/2a9q?apikey=key&nonce=9d54386f-118e-4876-b8e8-92ba37d451e7&timestamp=1499803866&foo=bar&signature=7b4aac67566be6709d4894c28c1a8c7257fa5f66ed1d0df189aa56dc17ed7bda"
    );
}

#[test]
fn signed_url_is_the_same_for_the_same_inputs() {
    let first = url_with_nonce_and_timestamp(Method::Get, "film/2a9q", Some("foo=bar"), None, &pair(), Nonce::from_u128(NONCE), TIMESTAMP);
    let second = url_with_nonce_and_timestamp(Method::Get, "film/2a9q", Some("foo=bar"), None, &pair(), Nonce::from_u128(NONCE), TIMESTAMP);
    assert_eq!(first, second);
}

#[test]
fn signed_url_without_parameters_and_body() {
    let expected = "https://api.letterboxd.com/api/v0/film/2a9q?apikey=key&nonce=9d54386f-118e-4876-b8e8-92ba37d451e7&timestamp=1499803866&signature=59ccce20249c5bc4d95a1f6f2ef74a959f5b8824a7c2e77405e55715b35370c4";
    let none = url_with_nonce_and_timestamp(Method::Get, "film/2a9q", None, None, &pair(), Nonce::from_u128(NONCE), TIMESTAMP);
    let empty = url_with_nonce_and_timestamp(Method::Get, "film/2a9q", Some(""), Some(""), &pair(), Nonce::from_u128(NONCE), TIMESTAMP);
    assert_eq!(none, expected);
    assert_eq!(empty, expected);
}

#[test]
fn signed_url_with_a_body() {
    let signed = url_with_nonce_and_timestamp(
        Method::Patch,
        "film/2a9q/me",
        None,
        Some("{\"watched\":true}"),
        &pair(),
        Nonce::from_u128(NONCE),
        0,
    );
    assert_eq!(
        signed,
        "https://api.letterboxd.com/api/v0/film/2a9q/me?apikey=key&nonce=9d54386f-118e-4876-b8e8-92ba37d451e7&timestamp=0&signature=08baaf06f6482790d29c8f38ce0d60fc34d0cb496618dfc15a22aa30cca9390d"
    );
}

#[test]
fn signed_url_at_the_largest_timestamp() {
    let signed = signed_url_at(
        Method::Delete,
        API_BASE_URL,
        "list/abc",
        "",
        b"",
        &pair(),
        Nonce::from_u128(0),
        u64::MAX,
    );
    assert_eq!(
        signed,
        "https://api.letterboxd.com/api/v0/list/abc?apikey=key&nonce=00000000-0000-0000-0000-000000000000&timestamp=18446744073709551615&signature=cc9cc0facd0c2d45db64ced262cec8fb46aaf50815441c7b81ff06e98e387703"
    );
}

#[test]
fn generated_url_has_the_wire_format() {
    let signed = generate_signed_url(Method::Get, "film/2a9q", Some("foo=bar"), None, &pair());
    let prefix = "https://api.letterboxd.com/api/v0/film/2a9q?apikey=key&nonce=";
    assert!(signed.starts_with(prefix));
    let rest = &signed[prefix.len()..];
    let nonce_text = &rest[..36];
    assert_eq!(uuid::Uuid::parse_str(nonce_text).unwrap().to_string(), nonce_text);
    let rest = &rest[36..];
    assert!(rest.starts_with("&timestamp="));
    let rest = &rest["&timestamp=".len()..];
    let end = rest.find('&').unwrap();
    let timestamp: u64 = rest[..end].parse().unwrap();
    assert!(timestamp > 1_577_836_800);
    let rest = &rest[end..];
    assert!(rest.starts_with("&foo=bar&signature="));
    let signature = &rest["&foo=bar&signature=".len()..];
    assert_eq!(signature.len(), 64);
    assert!(signature.chars().all(|c| c.is_ascii_digit() || ('a'..='f').contains(&c)));
    // the signature is the one that belongs to the URL before it
    let canonical = &signed[..signed.len() - "&signature=".len() - 64];
    assert_eq!(sign_url_text(Method::Get, canonical, b"", "secret"), signature);
}

#[test]
fn generated_urls_differ_in_the_nonce() {
    let first = generate_signed_url(Method::Get, "films", None, None, &pair());
    let second = generate_signed_url(Method::Get, "films", None, None, &pair());
    assert_ne!(first, second);
}

#[test]
fn fresh_signed_url_at_another_address() {
    let signed = fresh_signed_url(Method::Post, "http://127.0.0.1:8080/", "lists", "", b"{}", &pair());
    assert!(signed.starts_with("http://127.0.0.1:8080/lists?apikey=key&nonce="));
    let canonical = &signed[..signed.len() - "&signature=".len() - 64];
    let signature = &signed[signed.len() - 64..];
    assert_eq!(sign_url_text(Method::Post, canonical, b"{}", "secret"), signature);
}

#[test]
fn call_fits_for_every_call_of_ordinary_size() {
    assert!(call_fits(&pair(), API_BASE_URL, "film/2a9q", "foo=bar", b""));
    assert!(call_fits(&pair(), "", "", "", b""));
}

#[test]
fn str_or_empty_of_nothing_is_empty() {
    assert_eq!(str_or_empty(None), "");
    assert_eq!(str_or_empty(Some("")), "");
    assert_eq!(str_or_empty(Some("a=b")), "a=b");
}

#[test]
fn timestamp_of_a_reading_before_the_epoch_is_the_epoch() {
    assert_eq!(timestamp_of(None), 0);
    assert_eq!(timestamp_of(Some(0)), 0);
    assert_eq!(timestamp_of(Some(1499803866)), 1499803866);
    assert_eq!(timestamp_of(Some(u64::MAX)), u64::MAX);
}

#[test]
fn signed_url_is_longer_by_the_signature() {
    let canonical = build_canonical_url(API_BASE_URL, "film/2a9q", "key", Nonce::from_u128(NONCE), TIMESTAMP, "foo=bar");
    let signed = signed_url_at(Method::Get, API_BASE_URL, "film/2a9q", "foo=bar", b"", &pair(), Nonce::from_u128(NONCE), TIMESTAMP);
    assert_eq!(signed.len(), canonical.len() + 75);
    assert_eq!(attach_signature(String::from("abc"), "0123").len(), 3 + 11 + 4);
    let fresh = generate_signed_url(Method::Get, "films", None, None, &pair());
    let timestamp_len = fresh.split("&timestamp=").nth(1).unwrap().split('&').next().unwrap().len();
    assert_eq!(
        fresh.len(),
        "https://api.letterboxd.com/api/v0/films?apikey=key&nonce=".len() + 36 + "&timestamp=".len() + timestamp_len + 75
    );
}
