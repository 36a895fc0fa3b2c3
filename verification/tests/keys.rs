use lnurl_signup::utils::handle_keys;
use lnurl_signup::utils::normalize_public_key;
use lnurl_signup::utils::parse_signed_event;
use lnurl_signup::utils::public_key_display;
use lnurl_signup::utils::KeyError;
use lnurl_signup::utils::SignupError;

use nostr_sdk::prelude::Keys;
use nostr_sdk::prelude::Kind;
use nostr_sdk::prelude::SignEvent;
use nostr_sdk::prelude::Tag;
use nostr_sdk::prelude::Timestamp;
use nostr_sdk::prelude::UnsignedEvent;

// The secret key 1; its public key is the x coordinate of the secp256k1
// base point.
const SK_ONE: &str = "0000000000000000000000000000000000000000000000000000000000000001";
const PK_ONE: &str = "79be667ef9dcbbac55a06295ce870b07029bfcdb2dce28d959f2815b16f81798";

#[test]
fn generate_when_no_secret_key_given() {
    let (keys, shown) = handle_keys(None, true).expect("generation succeeds");
    assert_eq!(shown.len(), 64);
    assert_eq!(public_key_display(&keys, true), shown);
}

#[test]
fn parse_known_secret_key() {
    let (_keys, shown) = handle_keys(Some(SK_ONE.to_string()), true).expect("valid key parses");
    assert_eq!(shown, PK_ONE);
}

#[test]
fn bech32_display_starts_with_npub() {
    let (keys, shown) = handle_keys(Some(SK_ONE.to_string()), false).expect("valid key parses");
    assert!(shown.starts_with("npub1"));
    assert_eq!(shown.len(), 63);
    // The bech32 form names the same key as the hex form.
    assert_eq!(normalize_public_key(&shown).expect("npub parses"), PK_ONE);
    assert_eq!(public_key_display(&keys, true), PK_ONE);
}

#[test]
fn malformed_secret_key_is_rejected() {
    assert_eq!(
        handle_keys(Some("not a key".to_string()), true).unwrap_err(),
        KeyError::InvalidSecretKey
    );
}

#[test]
fn normalize_accepts_hex_and_rejects_garbage() {
    assert_eq!(normalize_public_key(PK_ONE).expect("hex parses"), PK_ONE);
    assert_eq!(
        normalize_public_key("zz").unwrap_err(),
        KeyError::InvalidPublicKey
    );
    assert_eq!(
        normalize_public_key("").unwrap_err(),
        KeyError::InvalidPublicKey
    );
}

#[test]
fn signed_event_round_trips_through_parse() {
    let keys = Keys::parse(SK_ONE).expect("valid key");
    let unsigned = UnsignedEvent::new(
        keys.public_key(),
        Timestamp::from_secs(1_700_000_000),
        Kind::Custom(20420),
        Vec::<Tag>::new(),
        "ciphertext",
    );
    let event = keys.sign_event(unsigned).expect("signing succeeds");
    let json = event.as_json();
    let parsed = parse_signed_event(&json).expect("canonical event JSON parses");
    assert_eq!(parsed, event);
}

#[test]
fn malformed_signed_event_is_rejected() {
    assert_eq!(
        parse_signed_event("not an event").unwrap_err(),
        SignupError::MalformedSignedEvent
    );
    assert_eq!(
        parse_signed_event("{}").unwrap_err(),
        SignupError::MalformedSignedEvent
    );
}
