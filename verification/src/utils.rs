//! Key handling on top of `nostr_sdk`: parsing or generating identities,
//! validating public keys, and rendering a public key for display.
//!
//! Every call into `nostr_sdk` stands behind a small trusted wrapper whose
//! contract states what the crate's source shows; everything around the
//! calls is verified.

use vstd::prelude::*;

use nostr_sdk::prelude::Event;
use nostr_sdk::prelude::Keys;
use nostr_sdk::prelude::PublicKey;
use nostr_sdk::prelude::ToBech32;

verus! {

#[verifier::external_type_specification]
#[verifier::external_body]
/// `nostr_sdk`'s keypair type, opaque to the library.
pub struct ExKeys(Keys);

#[verifier::external_type_specification]
#[verifier::external_body]
/// `nostr_sdk`'s public-key type, opaque to the library.
pub struct ExPublicKey(PublicKey);

#[verifier::external_type_specification]
#[verifier::external_body]
/// `nostr_sdk`'s signed-event type, opaque to the library.
pub struct ExEvent(Event);

/// A failure while handling key material.
#[derive(Debug, Clone, Copy, PartialEq, Eq, Structural)]
pub enum KeyError {
    /// The supplied secret key could not be parsed.
    InvalidSecretKey,
    /// The supplied public key could not be parsed.
    InvalidPublicKey,
}

/// A failure in the submission flow.
#[derive(Debug, Clone, Copy, PartialEq, Eq, Structural)]
pub enum SignupError {
    /// The signer handed back something that is not a serialized event.
    MalformedSignedEvent,
}

/// Shape of a rendered public key: 64 hex positions, or the 63-character
/// bech32 form with its `npub1` prefix.
pub open spec fn displayed_key_ok(s: Seq<char>, hex: bool) -> bool {
    if hex {
        s.len() == 64
    } else {
        s.len() == 63 && s.subrange(0, 5) == seq!['n', 'p', 'u', 'b', '1']
    }
}

/// Whether `nostr_sdk`'s `Keys::parse` accepts this secret-key string; a
/// function of the string alone.
pub uninterp spec fn sk_parse_ok(s: Seq<char>) -> bool;

/// Whether `nostr_sdk`'s `PublicKey::parse` accepts this public-key
/// string; a function of the string alone.
pub uninterp spec fn pk_parse_ok(s: Seq<char>) -> bool;

/// Whether `nostr`'s `Event::from_json` accepts this string as a signed
/// event; a function of the string alone.
pub uninterp spec fn event_json_ok(s: Seq<char>) -> bool;

/// Relies on `nostr_sdk`'s `Keys::parse`: parses a secret key given as
/// hex or bech32 and derives the keypair; success depends on the string
/// alone.  The outside error carries no data the library keeps.
#[verifier::external_body]
fn keys_parse(secret_key: &str) -> (r: Result<Keys, KeyError>)
    ensures
        r is Ok <==> sk_parse_ok(secret_key@),
{
    match Keys::parse(secret_key) {
        Ok(k) => Ok(k),
        Err(_) => Err(KeyError::InvalidSecretKey),
    }
}

/// Relies on `nostr_sdk`'s `Keys::generate`: a fresh keypair drawn from
/// the operating system's randomness source; nothing can be promised
/// about the value.
#[verifier::external_body]
fn keys_generate() -> Keys {
    Keys::generate()
}

/// Relies on `nostr_sdk`'s `Keys::public_key`: the public half of the
/// keypair.
#[verifier::external_body]
fn keys_public_key(keys: &Keys) -> PublicKey {
    keys.public_key()
}

/// Relies on `nostr_sdk`'s `PublicKey::parse`: parses a public key given
/// as hex, bech32 or a nostr URI; success depends on the string alone.
#[verifier::external_body]
fn pubkey_parse(s: &str) -> (r: Result<PublicKey, KeyError>)
    ensures
        r is Ok <==> pk_parse_ok(s@),
{
    match PublicKey::parse(s) {
        Ok(k) => Ok(k),
        Err(_) => Err(KeyError::InvalidPublicKey),
    }
}

/// Relies on `nostr_sdk`'s `PublicKey::to_hex`: the 32-byte key encoded
/// as 64 hex characters.
#[verifier::external_body]
fn pubkey_to_hex(pk: &PublicKey) -> (r: String)
    ensures
        r@.len() == 64,
{
    pk.to_hex()
}

/// Relies on `nostr_sdk`'s `ToBech32` for `PublicKey`: the `npub` bech32
/// encoding; its error type is uninhabited, so it cannot fail.  The
/// encoding of the 4-character `npub` prefix, the separator and 32 bytes
/// of data is always 63 characters.
#[verifier::external_body]
fn pubkey_to_bech32(pk: &PublicKey) -> (r: String)
    ensures
        r@.len() == 63,
        r@.subrange(0, 5) == seq!['n', 'p', 'u', 'b', '1'],
{
    match pk.to_bech32() {
        Ok(s) => s,
        Err(e) => match e {},
    }
}

/// Relies on `nostr`'s `Event::from_json`: deserializes the canonical
/// JSON encoding of a signed event; success depends on the string alone.
/// The outside error carries no data the library keeps.
#[verifier::external_body]
fn event_from_json(s: &str) -> (r: Result<Event, SignupError>)
    ensures
        r is Ok <==> event_json_ok(s@),
{
    match Event::from_json(s.as_bytes()) {
        Ok(e) => Ok(e),
        Err(_) => Err(SignupError::MalformedSignedEvent),
    }
}

/// Parses the supplied secret key into an identity, or generates a fresh
/// one when none is given; also renders the derived public key, as raw
/// hex when `hex` is set and as bech32 otherwise, for the host to log.
pub fn handle_keys(private_key: Option<String>, hex: bool) -> (r: Result<(Keys, String), KeyError>)
    ensures
        (match private_key {
            Some(pk) => r is Ok <==> sk_parse_ok(pk@),
            None => r is Ok,
        }),
        (r matches Ok(p) ==> displayed_key_ok(p.1@, hex)),
        r is Err ==> r == Err::<(Keys, String), KeyError>(KeyError::InvalidSecretKey),
{
    let keys = match private_key {
        Some(pk) => {
            match keys_parse(pk.as_str()) {
                Ok(k) => k,
                Err(_) => {
                    return Err(KeyError::InvalidSecretKey);
                },
            }
        },
        None => keys_generate(),
    };
    let shown = public_key_display(&keys, hex);
    Ok((keys, shown))
}

/// Renders the public key of an identity: raw hex when `hex` is set,
/// bech32 otherwise.
pub fn public_key_display(keys: &Keys, hex: bool) -> (r: String)
    ensures
        displayed_key_ok(r@, hex),
{
    let pk = keys_public_key(keys);
    if hex {
        pubkey_to_hex(&pk)
    } else {
        pubkey_to_bech32(&pk)
    }
}

/// Validates a public-key string and returns its canonical 64-character
/// hex form; rejects exactly the strings `nostr_sdk` cannot parse.
pub fn normalize_public_key(s: &str) -> (r: Result<String, KeyError>)
    ensures
        r is Ok <==> pk_parse_ok(s@),
        (r matches Ok(h) ==> h@.len() == 64),
        r is Err ==> r == Err::<String, KeyError>(KeyError::InvalidPublicKey),
{
    match pubkey_parse(s) {
        Ok(pk) => Ok(pubkey_to_hex(&pk)),
        Err(_) => Err(KeyError::InvalidPublicKey),
    }
}

/// Deserializes the signed event handed back by the extension; rejects
/// exactly the strings `nostr` cannot parse, instead of failing hard.
pub fn parse_signed_event(s: &str) -> (r: Result<Event, SignupError>)
    ensures
        r is Ok <==> event_json_ok(s@),
        r is Err ==> r == Err::<Event, SignupError>(SignupError::MalformedSignedEvent),
{
    match event_from_json(s) {
        Ok(e) => Ok(e),
        Err(_) => Err(SignupError::MalformedSignedEvent),
    }
}

} // verus!
