use pam_zoftoken::config::Config;
use pam_zoftoken::escape::{escape, is_unreserved};
use pam_zoftoken::request::{parameter, status_url, QUERY_TIMEOUT_SECS};

fn config(service: &str, auth_key: &str, host: &str) -> Config {
    Config::new(service.to_string(), auth_key.to_string(), host.to_string(), String::new(), false)
}

#[test]
fn unreserved_bytes() {
    for b in 0u8..=255 {
        let expected = b.is_ascii_alphanumeric() || b == b'-' || b == b'.' || b == b'_' || b == b'~';
        assert_eq!(is_unreserved(b), expected, "byte {}", b);
    }
}

#[test]
fn escape_writes_upper_case_hex_digits() {
    let bytes: String = (0u8..128).filter(|b| !is_unreserved(*b)).map(|b| b as char).collect();
    let expected: String =
        (0u8..128).filter(|b| !is_unreserved(*b)).map(|b| format!("%{:02X}", b)).collect();
    assert_eq!(escape(&bytes), expected);
}

#[test]
fn escape_keeps_plain_text() {
    assert_eq!(escape("alice"), "alice");
    assert_eq!(escape("svc-deploy"), "svc-deploy");
    assert_eq!(escape("A.b_c~9"), "A.b_c~9");
    assert_eq!(escape(""), "");
}

#[test]
fn escape_hides_query_structure() {
    assert_eq!(escape("a&b=c"), "a%26b%3Dc");
    assert_eq!(escape("x?y#z/w"), "x%3Fy%23z%2Fw");
    assert_eq!(escape("a b+c"), "a%20b%2Bc");
    assert_eq!(escape("100%"), "100%25");
}

#[test]
fn escape_of_control_and_high_bytes() {
    assert_eq!(escape("\u{0}\n\u{7f}"), "%00%0A%7F");
    assert_eq!(escape("@:;,"), "%40%3A%3B%2C");
}

#[test]
fn escape_works_on_utf8_bytes() {
    assert_eq!(escape("é"), "%C3%A9");
    assert_eq!(escape("日本"), "%E6%97%A5%E6%9C%AC");
    assert_eq!(escape("a😀b"), "a%F0%9F%98%80b");
}

#[test]
fn escape_appends_every_character() {
    let long = "user&name".repeat(50);
    assert_eq!(escape(&long), "user%26name".repeat(50));
}

#[test]
fn parameter_joins_name_and_escaped_value() {
    assert_eq!(parameter("id", "alice"), "id=alice");
    assert_eq!(parameter("id", "a=b"), "id=a%3Db");
    assert_eq!(parameter("authKey", ""), "authKey=");
}

#[test]
fn status_url_of_plain_values() {
    assert_eq!(
        status_url(&config("ssh", "k1", "auth.example.com"), "alice"),
        "https://auth.example.com/token/status?id=alice&service=ssh&authKey=k1"
    );
}

#[test]
fn status_url_escapes_the_parameters_and_not_the_host() {
    assert_eq!(
        status_url(&config("s&x", "k=1 2", "auth.example.com:8443"), "bob&service=none"),
        "https://auth.example.com:8443/token/status?id=bob%26service%3Dnone&service=s%26x&authKey=k%3D1%202"
    );
}

#[test]
fn status_url_of_empty_values() {
    assert_eq!(status_url(&config("", "", ""), ""), "https:///token/status?id=&service=&authKey=");
}

#[test]
fn query_timeout_is_finite_and_positive() {
    assert_eq!(QUERY_TIMEOUT_SECS, 10);
}
