use lnurl_signup::app::App;
use lnurl_signup::app::Effect;
use lnurl_signup::app::Inputs;
use lnurl_signup::app::Msg;
use lnurl_signup::app::State;
use lnurl_signup::event::build_signup_event;
use lnurl_signup::event::SIGNUP_EVENT_KIND;

const SERVICE_KEY: &str = "79be667ef9dcbbac55a06295ce870b07029bfcdb2dce28d959f2815b16f81798";

fn fresh_app() -> App {
    App::create(SERVICE_KEY.to_string(), "saoirse.dev".to_string())
}

fn inputs(pubkey: &str, username: &str, mint: &str) -> Inputs {
    Inputs {
        pubkey_input: pubkey.to_string(),
        username_input: username.to_string(),
        mint_input: mint.to_string(),
    }
}

#[test]
fn create_starts_in_enter_info() {
    let app = fresh_app();
    assert_eq!(app.state, State::Enterinfo);
    assert!(app.pubkey.is_none());
    assert!(app.username.is_none());
    assert!(app.mint.is_none());
    assert!(!app.has_client);
    assert_eq!(app.lnurl_service_pubkey, SERVICE_KEY);
    assert_eq!(app.domain, "saoirse.dev");
}

#[test]
fn extension_key_flow_signs_up() {
    // The full happy path: key from the extension, then Next, then Submit.
    let mut app = fresh_app();
    let ins = inputs("", "alice", "https://mint.example");

    let eff = app.update(Msg::GetNIP07Key, &ins);
    assert!(matches!(eff, Effect::FetchPubkey));
    assert_eq!(app.state, State::Enterinfo);

    let eff = app.update(Msg::SetPubkey("02ab".to_string()), &ins);
    match eff {
        Effect::CreateClient { pubkey } => assert_eq!(pubkey, "02ab"),
        other => panic!("expected CreateClient, got {}", effect_name(&other)),
    }
    assert_eq!(app.pubkey.as_deref(), Some("02ab"));

    let eff = app.update(Msg::Next, &ins);
    assert!(matches!(eff, Effect::NoOp));
    assert_eq!(app.state, State::VerifyInfo);
    assert_eq!(app.username.as_deref(), Some("alice"));
    assert_eq!(app.mint.as_deref(), Some("https://mint.example"));

    let eff = app.update(Msg::Submit, &ins);
    assert_eq!(app.state, State::SignedUp);
    match eff {
        Effect::StartSubmission { payload, sender_pubkey, recipient_pubkey } => {
            assert_eq!(
                payload,
                "{\"mint\":\"https://mint.example\",\"username\":\"alice\",\"relays\":[]}"
            );
            assert_eq!(sender_pubkey, "02ab");
            assert_eq!(recipient_pubkey, SERVICE_KEY);
        }
        other => panic!("expected StartSubmission, got {}", effect_name(&other)),
    }
}

#[test]
fn second_key_answer_is_ignored() {
    // The client identity is bound to the first acquired key; the relay
    // bootstrap happens only once per session.
    let mut app = fresh_app();
    let ins = inputs("", "alice", "https://m");
    app.update(Msg::SetPubkey("02ab".to_string()), &ins);
    let eff = app.update(Msg::SetPubkey("ffff".to_string()), &ins);
    assert!(matches!(eff, Effect::NoOp));
    assert_eq!(app.pubkey.as_deref(), Some("02ab"));
}

#[test]
fn manual_pubkey_fallback() {
    // The extension fails: the empty answer stores nothing, and Next takes
    // the typed field verbatim.
    let mut app = fresh_app();
    let ins = inputs("03cd", "bob", "https://m");

    let eff = app.update(Msg::SetPubkey(String::new()), &ins);
    assert!(matches!(eff, Effect::NoOp));
    assert!(app.pubkey.is_none());

    let eff = app.update(Msg::Next, &ins);
    match eff {
        Effect::CreateClient { pubkey } => assert_eq!(pubkey, "03cd"),
        other => panic!("expected CreateClient, got {}", effect_name(&other)),
    }
    assert_eq!(app.pubkey.as_deref(), Some("03cd"));
    assert_eq!(app.state, State::VerifyInfo);
}

#[test]
fn manual_pubkey_is_stored_verbatim_and_idempotent() {
    // Two identical runs store the identical key text.
    let ins = inputs("03cd", "bob", "https://m");
    let mut first = fresh_app();
    let mut second = fresh_app();
    first.update(Msg::Next, &ins);
    second.update(Msg::Next, &ins);
    assert_eq!(first.pubkey, second.pubkey);
    assert_eq!(first.pubkey.as_deref(), Some("03cd"));
}

#[test]
fn recipient_is_always_the_configured_service_key() {
    // Whatever the user types, the submission encrypts to the service key.
    let mut app = fresh_app();
    let ins = inputs(SERVICE_KEY, "carol", "https://m");
    let mut other = fresh_app();
    let other_ins = inputs("1111111111111111111111111111111111111111111111111111111111111111", "carol", "https://m");

    app.update(Msg::Next, &ins);
    other.update(Msg::Next, &other_ins);
    for (a, i) in [(&mut app, &ins), (&mut other, &other_ins)] {
        match a.update(Msg::Submit, i) {
            Effect::StartSubmission { recipient_pubkey, .. } => {
                assert_eq!(recipient_pubkey, SERVICE_KEY)
            }
            other_eff => panic!("expected StartSubmission, got {}", effect_name(&other_eff)),
        }
    }
}

#[test]
fn signed_up_is_terminal() {
    // A failed publish reports nothing back into the wizard: the stage
    // stays SignedUp and later messages are ignored.
    let mut app = fresh_app();
    let ins = inputs("02ab", "alice", "https://m");
    app.update(Msg::Next, &ins);
    app.update(Msg::Submit, &ins);
    assert_eq!(app.state, State::SignedUp);

    for msg in [
        Msg::Submit,
        Msg::Next,
        Msg::GetNIP07Key,
        Msg::SetPubkey("ff".to_string()),
    ] {
        let eff = app.update(msg, &ins);
        assert!(matches!(eff, Effect::NoOp));
        assert_eq!(app.state, State::SignedUp);
    }
}

#[test]
fn submit_only_from_verify_stage() {
    let mut app = fresh_app();
    let ins = inputs("02ab", "alice", "https://m");
    let eff = app.update(Msg::Submit, &ins);
    assert!(matches!(eff, Effect::NoOp));
    assert_eq!(app.state, State::Enterinfo);
}

#[test]
fn built_event_has_custom_kind_and_one_recipient_tag() {
    let e = build_signup_event(
        "ciphertext".to_string(),
        1_700_000_000,
        "02ab".to_string(),
        SERVICE_KEY,
    );
    assert_eq!(e.kind, SIGNUP_EVENT_KIND);
    assert_eq!(e.kind, 20420);
    assert_eq!(e.content, "ciphertext");
    assert_eq!(e.created_at, 1_700_000_000);
    assert_eq!(e.pubkey, "02ab");
    assert_eq!(e.tags, vec![vec!["p".to_string(), SERVICE_KEY.to_string()]]);
}

fn effect_name(e: &Effect) -> &'static str {
    match e {
        Effect::NoOp => "NoOp",
        Effect::FetchPubkey => "FetchPubkey",
        Effect::CreateClient { .. } => "CreateClient",
        Effect::StartSubmission { .. } => "StartSubmission",
    }
}
