use pam_zoftoken::directive::{lookup, split_directive};

fn text(s: &str) -> String {
    s.to_string()
}

fn args(raw: &[&str]) -> Vec<String> {
    raw.iter().map(|s| s.to_string()).collect()
}

#[test]
fn split_at_the_separator() {
    assert_eq!(split_directive("service=ssh"), (text("service"), text("ssh")));
}

#[test]
fn split_without_separator_gives_empty_value() {
    assert_eq!(split_directive("debug"), (text("debug"), text("")));
}

#[test]
fn split_at_the_first_separator_only() {
    assert_eq!(split_directive("auth_key=a=b=c"), (text("auth_key"), text("a=b=c")));
}

#[test]
fn split_with_empty_key() {
    assert_eq!(split_directive("=value"), (text(""), text("value")));
}

#[test]
fn split_with_empty_value() {
    assert_eq!(split_directive("host="), (text("host"), text("")));
}

#[test]
fn split_of_the_empty_string() {
    assert_eq!(split_directive(""), (text(""), text("")));
}

#[test]
fn split_of_a_lone_separator() {
    assert_eq!(split_directive("="), (text(""), text("")));
}

#[test]
fn split_counts_characters_not_bytes() {
    assert_eq!(split_directive("clé=señor=ü"), (text("clé"), text("señor=ü")));
    assert_eq!(split_directive("日本語"), (text("日本語"), text("")));
}

#[test]
fn lookup_finds_a_directive() {
    let given = args(&["service=ssh", "host=auth.example.com"]);
    assert_eq!(lookup(&given, "host"), Some(text("auth.example.com")));
    assert_eq!(lookup(&given, "service"), Some(text("ssh")));
}

#[test]
fn lookup_of_an_absent_key() {
    let given = args(&["service=ssh"]);
    assert_eq!(lookup(&given, "host"), None);
    assert_eq!(lookup(&Vec::new(), "host"), None);
}

#[test]
fn lookup_takes_the_last_occurrence() {
    let given = args(&["host=one", "service=ssh", "host=two", "host=three", "debug=true"]);
    assert_eq!(lookup(&given, "host"), Some(text("three")));
}

#[test]
fn lookup_of_a_bare_key_gives_the_empty_value() {
    let given = args(&["host=one", "host"]);
    assert_eq!(lookup(&given, "host"), Some(text("")));
}

#[test]
fn lookup_matches_the_whole_key() {
    let given = args(&["hostname=one", "hos=two", "Host=three"]);
    assert_eq!(lookup(&given, "host"), None);
}
