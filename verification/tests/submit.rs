use lnurl_signup::submit::submit_step;
use lnurl_signup::submit::SubmitAction;
use lnurl_signup::submit::SubmitFailure;
use lnurl_signup::submit::SubmitStage;

use nostr_sdk::prelude::Keys;
use nostr_sdk::prelude::Kind;
use nostr_sdk::prelude::SignEvent;
use nostr_sdk::prelude::Tag;
use nostr_sdk::prelude::Timestamp;
use nostr_sdk::prelude::UnsignedEvent;

const SERVICE_KEY: &str = "79be667ef9dcbbac55a06295ce870b07029bfcdb2dce28d959f2815b16f81798";

fn encrypting() -> SubmitStage {
    SubmitStage::Encrypting {
        payload: "{\"mint\":\"https://m\",\"username\":\"alice\",\"relays\":[]}".to_string(),
        sender_pubkey: "02ab".to_string(),
        recipient_pubkey: SERVICE_KEY.to_string(),
    }
}

#[test]
fn ciphertext_leads_to_signing() {
    let (stage, action) = submit_step(encrypting(), Some("cipher".to_string()), 1_700_000_000);
    assert_eq!(stage, SubmitStage::Signing);
    match action {
        SubmitAction::Sign { event } => {
            assert_eq!(event.kind, 20420);
            assert_eq!(event.content, "cipher");
            assert_eq!(event.created_at, 1_700_000_000);
            assert_eq!(event.pubkey, "02ab");
            assert_eq!(event.tags, vec![vec!["p".to_string(), SERVICE_KEY.to_string()]]);
        }
        other => panic!("expected Sign, got {other:?}"),
    }
}

#[test]
fn encrypt_denial_warns_and_stops() {
    let (stage, action) = submit_step(encrypting(), None, 0);
    assert_eq!(stage, SubmitStage::Failed { error: SubmitFailure::EncryptDenied });
    assert!(matches!(action, SubmitAction::Warn { error: SubmitFailure::EncryptDenied }));
}

#[test]
fn signed_event_leads_to_publishing() {
    let keys = Keys::parse("0000000000000000000000000000000000000000000000000000000000000001")
        .expect("valid key");
    let unsigned = UnsignedEvent::new(
        keys.public_key(),
        Timestamp::from_secs(1_700_000_000),
        Kind::Custom(20420),
        Vec::<Tag>::new(),
        "cipher",
    );
    let signed = keys.sign_event(unsigned).expect("signing succeeds");
    let (stage, action) = submit_step(SubmitStage::Signing, Some(signed.as_json()), 0);
    assert_eq!(stage, SubmitStage::Publishing);
    match action {
        SubmitAction::Publish { event } => assert_eq!(event, signed),
        other => panic!("expected Publish, got {other:?}"),
    }
}

#[test]
fn malformed_signed_event_warns_and_stops() {
    let (stage, action) = submit_step(SubmitStage::Signing, Some("not an event".to_string()), 0);
    assert_eq!(stage, SubmitStage::Failed { error: SubmitFailure::MalformedSignedEvent });
    assert!(matches!(action, SubmitAction::Warn { error: SubmitFailure::MalformedSignedEvent }));
}

#[test]
fn sign_denial_warns_and_stops() {
    let (stage, action) = submit_step(SubmitStage::Signing, None, 0);
    assert_eq!(stage, SubmitStage::Failed { error: SubmitFailure::SignDenied });
    assert!(matches!(action, SubmitAction::Warn { error: SubmitFailure::SignDenied }));
}

#[test]
fn publish_outcomes() {
    let (stage, action) = submit_step(SubmitStage::Publishing, None, 0);
    assert_eq!(stage, SubmitStage::Done);
    assert!(matches!(action, SubmitAction::Idle));

    let (stage, action) =
        submit_step(SubmitStage::Publishing, Some("connection closed".to_string()), 0);
    assert_eq!(stage, SubmitStage::Failed { error: SubmitFailure::PublishFailed });
    assert!(matches!(action, SubmitAction::Warn { error: SubmitFailure::PublishFailed }));
}

#[test]
fn finished_pipeline_is_idle() {
    let (stage, action) = submit_step(SubmitStage::Done, Some("late".to_string()), 0);
    assert_eq!(stage, SubmitStage::Done);
    assert!(matches!(action, SubmitAction::Idle));

    let failed = SubmitStage::Failed { error: SubmitFailure::PublishFailed };
    let (stage, action) = submit_step(failed, None, 0);
    assert_eq!(stage, SubmitStage::Failed { error: SubmitFailure::PublishFailed });
    assert!(matches!(action, SubmitAction::Idle));
}
