//! Assembly of the unsigned sign-up event: the custom kind, the encrypted
//! payload, and the single tag naming the recipient.

use vstd::prelude::*;

verus! {

/// The custom Nostr event kind that carries a sign-up payload.
pub const SIGNUP_EVENT_KIND: u64 = 20420;

/// The event handed to the signer: not yet signed, no id.
#[derive(Debug, PartialEq)]
pub struct UnsignedEvent {
    /// The numeric event kind.
    pub kind: u64,
    /// The ciphertext of the serialized payload.
    pub content: String,
    /// The event tags, each a list of strings.
    pub tags: Vec<Vec<String>>,
    /// Seconds since the UNIX epoch.
    pub created_at: u64,
    /// The sender's public key, hex.
    pub pubkey: String,
}

/// Mathematical model of an [`UnsignedEvent`].
pub ghost struct UnsignedEventV {
    /// The numeric event kind.
    pub kind: u64,
    /// Characters of the ciphertext.
    pub content: Seq<char>,
    /// The tags, as sequences of character sequences.
    pub tags: Seq<Seq<Seq<char>>>,
    /// Seconds since the UNIX epoch.
    pub created_at: u64,
    /// Characters of the sender key.
    pub pubkey: Seq<char>,
}

impl View for UnsignedEvent {
    type V = UnsignedEventV;

    open spec fn view(&self) -> UnsignedEventV {
        UnsignedEventV {
            kind: self.kind,
            content: self.content@,
            tags: self.tags.deep_view(),
            created_at: self.created_at,
            pubkey: self.pubkey@,
        }
    }
}

/// Builds the unsigned sign-up event: always kind `20420`, the ciphertext
/// as content, and exactly one tag `["p", recipient]` naming the
/// configured recipient key.
pub fn build_signup_event(
    cipher_text: String,
    created_at: u64,
    sender_pubkey: String,
    recipient_pubkey: &str,
) -> (e: UnsignedEvent)
    ensures
        e@.kind == SIGNUP_EVENT_KIND,
        e@.content == cipher_text@,
        e@.created_at == created_at,
        e@.pubkey == sender_pubkey@,
        e@.tags.len() == 1,
        e@.tags[0] == seq![seq!['p'], recipient_pubkey@],
{
    let mut tag: Vec<String> = Vec::new();
    let p_marker = "p".to_owned();
    proof {
        reveal_strlit("p");
        assert(p_marker@ =~= seq!['p']);
    }
    tag.push(p_marker);
    tag.push(recipient_pubkey.to_owned());
    let mut tags: Vec<Vec<String>> = Vec::new();
    tags.push(tag);
    let e = UnsignedEvent {
        kind: SIGNUP_EVENT_KIND,
        content: cipher_text,
        tags,
        created_at,
        pubkey: sender_pubkey,
    };
    proof {
        assert(e@.tags =~~= seq![seq![seq!['p'], recipient_pubkey@]]);
    }
    e
}

} // verus!
