//! The fire-and-forget submission pipeline, one decision at a time.
//!
//! After the wizard emits its submission effect, the host alternates
//! outside calls (extension encrypt, extension sign, relay publish) with
//! calls to [`submit_step`], which decides from each answer what to do
//! next: sign only a ciphertext, publish only a signed event that parses,
//! and on any failure record a warning and stop — the wizard stage is
//! never rolled back.

use vstd::prelude::*;

use nostr_sdk::prelude::Event;

use crate::event::build_signup_event;
use crate::event::UnsignedEvent;
use crate::event::SIGNUP_EVENT_KIND;
use crate::utils::event_json_ok;
use crate::utils::parse_signed_event;

verus! {

/// Why a submission stopped early.
#[derive(Debug, Clone, Copy, PartialEq, Eq, Structural)]
pub enum SubmitFailure {
    /// The extension denied or failed the encrypt call.
    EncryptDenied,
    /// The extension denied or failed the sign call.
    SignDenied,
    /// The signer handed back something that is not a serialized event.
    MalformedSignedEvent,
    /// The relay rejected the event or the connection was down.
    PublishFailed,
}

/// Where the submission stands between two outside calls.
#[derive(Debug, PartialEq)]
pub enum SubmitStage {
    /// Waiting for the ciphertext of the serialized payload.
    Encrypting {
        /// The serialized payload handed to the encrypt call.
        payload: String,
        /// The sender's stored public key.
        sender_pubkey: String,
        /// The configured service key the payload is encrypted to.
        recipient_pubkey: String,
    },
    /// Waiting for the serialized signed event.
    Signing,
    /// Waiting for the publish outcome.
    Publishing,
    /// The event went out.
    Done,
    /// The pipeline stopped early; a warning was recorded.
    Failed {
        /// What stopped it.
        error: SubmitFailure,
    },
}

/// The next outside call the host must make, or nothing.
#[derive(Debug)]
pub enum SubmitAction {
    /// Hand this event to the extension's sign call.
    Sign {
        /// The unsigned event built from the ciphertext.
        event: UnsignedEvent,
    },
    /// Publish this signed event to the relay.
    Publish {
        /// The deserialized signed event.
        event: Event,
    },
    /// Record a warning; nothing more happens.
    Warn {
        /// What went wrong.
        error: SubmitFailure,
    },
    /// Nothing left to do.
    Idle,
}

/// One decision of the submission pipeline.
///
/// `answer` is what the previous outside call produced: the ciphertext or
/// the signed-event string (`None` for a denial), or, in the publishing
/// stage, `None` for success and the relay's error text otherwise.
/// `created_at` stamps the event built from a ciphertext.
pub fn submit_step(stage: SubmitStage, answer: Option<String>, created_at: u64) -> (r: (
    SubmitStage,
    SubmitAction,
))
    ensures
        (match stage {
            SubmitStage::Encrypting { payload, sender_pubkey, recipient_pubkey } => (match answer {
                Some(ct) => r.0 == SubmitStage::Signing && (r.1 matches SubmitAction::Sign { event }
                    && event@.kind == SIGNUP_EVENT_KIND && event@.content == ct@
                    && event@.created_at == created_at && event@.pubkey == sender_pubkey@
                    && event@.tags == seq![seq![seq!['p'], recipient_pubkey@]]),
                None => r.0 == (SubmitStage::Failed { error: SubmitFailure::EncryptDenied })
                    && r.1 == (SubmitAction::Warn { error: SubmitFailure::EncryptDenied }),
            }),
            SubmitStage::Signing => (match answer {
                Some(s) => if event_json_ok(s@) {
                    r.0 == SubmitStage::Publishing && r.1 is Publish
                } else {
                    r.0 == (SubmitStage::Failed { error: SubmitFailure::MalformedSignedEvent })
                        && r.1 == (SubmitAction::Warn {
                        error: SubmitFailure::MalformedSignedEvent,
                    })
                },
                None => r.0 == (SubmitStage::Failed { error: SubmitFailure::SignDenied }) && r.1
                    == (SubmitAction::Warn { error: SubmitFailure::SignDenied }),
            }),
            SubmitStage::Publishing => (match answer {
                Some(_) => r.0 == (SubmitStage::Failed { error: SubmitFailure::PublishFailed })
                    && r.1 == (SubmitAction::Warn { error: SubmitFailure::PublishFailed }),
                None => r.0 == SubmitStage::Done && r.1 == SubmitAction::Idle,
            }),
            SubmitStage::Done => r.0 == SubmitStage::Done && r.1 == SubmitAction::Idle,
            SubmitStage::Failed { error } => r.0 == (SubmitStage::Failed { error }) && r.1
                == SubmitAction::Idle,
        }),
{
    match stage {
        SubmitStage::Encrypting { payload: _, sender_pubkey, recipient_pubkey } => {
            match answer {
                Some(ct) => {
                    let event = build_signup_event(
                        ct,
                        created_at,
                        sender_pubkey,
                        recipient_pubkey.as_str(),
                    );
                    proof {
                        assert(event@.tags =~~= seq![seq![seq!['p'], recipient_pubkey@]]);
                    }
                    (SubmitStage::Signing, SubmitAction::Sign { event })
                },
                None => (
                    SubmitStage::Failed { error: SubmitFailure::EncryptDenied },
                    SubmitAction::Warn { error: SubmitFailure::EncryptDenied },
                ),
            }
        },
        SubmitStage::Signing => {
            match answer {
                Some(s) => {
                    match parse_signed_event(s.as_str()) {
                        Ok(event) => (SubmitStage::Publishing, SubmitAction::Publish { event }),
                        Err(_) => (
                            SubmitStage::Failed { error: SubmitFailure::MalformedSignedEvent },
                            SubmitAction::Warn { error: SubmitFailure::MalformedSignedEvent },
                        ),
                    }
                },
                None => (
                    SubmitStage::Failed { error: SubmitFailure::SignDenied },
                    SubmitAction::Warn { error: SubmitFailure::SignDenied },
                ),
            }
        },
        SubmitStage::Publishing => {
            match answer {
                Some(_) => (
                    SubmitStage::Failed { error: SubmitFailure::PublishFailed },
                    SubmitAction::Warn { error: SubmitFailure::PublishFailed },
                ),
                None => (SubmitStage::Done, SubmitAction::Idle),
            }
        },
        SubmitStage::Done => (SubmitStage::Done, SubmitAction::Idle),
        SubmitStage::Failed { error } => (SubmitStage::Failed { error }, SubmitAction::Idle),
    }
}

} // verus!
