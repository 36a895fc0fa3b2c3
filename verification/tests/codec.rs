use lnurl_signup::app::UserSignUp;
use lnurl_signup::codec::parse_user_signup;
use lnurl_signup::codec::serialize_user_signup;

fn signup(mint: &str, username: &str, relays: &[&str]) -> UserSignUp {
    UserSignUp {
        mint: mint.to_string(),
        username: username.to_string(),
        relays: relays.iter().map(|r| r.to_string()).collect(),
    }
}

#[test]
fn serialize_basic_payload() {
    let u = signup("https://mint.example", "alice", &[]);
    let s = serialize_user_signup(&u);
    assert_eq!(s, "{\"mint\":\"https://mint.example\",\"username\":\"alice\",\"relays\":[]}");
}

#[test]
fn serialize_with_relays() {
    let u = signup("https://m", "bob", &["wss://relay.one", "wss://relay.two"]);
    let s = serialize_user_signup(&u);
    assert_eq!(
        s,
        "{\"mint\":\"https://m\",\"username\":\"bob\",\"relays\":[\"wss://relay.one\",\"wss://relay.two\"]}"
    );
}

#[test]
fn serialize_escapes_quotes_and_backslashes() {
    let u = signup("https://m", "a\"b\\c", &[]);
    let s = serialize_user_signup(&u);
    assert_eq!(s, "{\"mint\":\"https://m\",\"username\":\"a\\\"b\\\\c\",\"relays\":[]}");
}

#[test]
fn serialize_escapes_control_characters_like_serde_json() {
    let u = signup("https://m", "a\nb\tc\rd\u{8}e\u{c}f\u{1}g\u{1f}h", &[]);
    let s = serialize_user_signup(&u);
    assert_eq!(
        s,
        "{\"mint\":\"https://m\",\"username\":\"a\\nb\\tc\\rd\\be\\ff\\u0001g\\u001fh\",\"relays\":[]}"
    );
}

#[test]
fn round_trip_control_characters() {
    let u = signup("m\u{0}x", "\u{1f}\t\r\n\u{c}\u{8}y", &["w\u{b}s"]);
    let back = parse_user_signup(&serialize_user_signup(&u)).expect("round trip");
    assert_eq!(back, u);
}

#[test]
fn parse_rejects_raw_and_foreign_escapes() {
    // A raw control character inside a string value is not canonical.
    assert!(parse_user_signup("{\"mint\":\"m\nx\",\"username\":\"u\",\"relays\":[]}").is_none());
    // An escape the encoder never writes is rejected.
    assert!(parse_user_signup("{\"mint\":\"m\\qx\",\"username\":\"u\",\"relays\":[]}").is_none());
    // \u is accepted only in the encoder's `\u00..` form for codes
    // without a shorthand.
    assert!(parse_user_signup("{\"mint\":\"m\\u0041\",\"username\":\"u\",\"relays\":[]}").is_none());
    assert!(parse_user_signup("{\"mint\":\"m\\u000a\",\"username\":\"u\",\"relays\":[]}").is_none());
    let ok = parse_user_signup("{\"mint\":\"m\\u000bx\",\"username\":\"u\",\"relays\":[]}")
        .expect("plain \\u form parses");
    assert_eq!(ok.mint, "m\u{b}x");
}

#[test]
fn round_trip_basic() {
    let u = signup("https://mint.example", "alice", &[]);
    let back = parse_user_signup(&serialize_user_signup(&u)).expect("round trip");
    assert_eq!(back, u);
}

#[test]
fn round_trip_with_relays_and_escapes() {
    let u = signup("https://m\"x", "na\\me", &["wss://a", "", "w\"s"]);
    let back = parse_user_signup(&serialize_user_signup(&u)).expect("round trip");
    assert_eq!(back, u);
}

#[test]
fn round_trip_empty_fields() {
    let u = signup("", "", &[""]);
    let back = parse_user_signup(&serialize_user_signup(&u)).expect("round trip");
    assert_eq!(back, u);
}

#[test]
fn parse_rejects_garbage() {
    assert!(parse_user_signup("").is_none());
    assert!(parse_user_signup("nonsense").is_none());
    assert!(parse_user_signup("{\"mint\":\"m\"}").is_none());
    assert!(parse_user_signup("{\"mint\":\"m\",\"username\":\"u\",\"relays\":[]").is_none());
    assert!(parse_user_signup("{\"mint\":\"m\",\"username\":\"u\",\"relays\":[]} ").is_none());
    assert!(parse_user_signup("{\"mint\":\"m\",\"username\":\"u\",\"relays\":[,]}").is_none());
}

#[test]
fn parse_accepts_exact_canonical_form() {
    let parsed = parse_user_signup("{\"mint\":\"m\",\"username\":\"u\",\"relays\":[\"r\"]}")
        .expect("canonical form parses");
    assert_eq!(parsed.mint, "m");
    assert_eq!(parsed.username, "u");
    assert_eq!(parsed.relays, vec!["r".to_string()]);
}
