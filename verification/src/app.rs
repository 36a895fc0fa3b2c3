//! The sign-up wizard: its stages, its messages, and the pure transition
//! logic of the controller.
//!
//! The controller is modelled as a function from the current state and an
//! incoming message to the next state plus one effect.  Effects name the
//! outside work the host must perform (ask the extension for a key, open a
//! relay client, run the encrypt-sign-publish sequence); the host reports
//! outcomes back as further messages.

use vstd::prelude::*;

use crate::codec::serialize_user_signup;
use crate::codec::spec_serialize;

verus! {

/// The wizard stage.
#[derive(Debug, Clone, Copy, PartialEq, Eq, Structural)]
pub enum State {
    /// Collecting username, public key and mint.
    Enterinfo,
    /// Showing the collected values for confirmation.
    VerifyInfo,
    /// The sign-up event has been dispatched; terminal.
    SignedUp,
}

/// The payload announced to the sign-up service: the chosen Cashu mint,
/// the requested Lightning-Address username, and the user's Nostr relays.
#[derive(Debug, Clone, PartialEq)]
pub struct UserSignUp {
    /// Cashu mint
    pub mint: String,
    /// LN Address username
    pub username: String,
    /// Nostr relays
    pub relays: Vec<String>,
}

/// Mathematical model of a [`UserSignUp`].
pub ghost struct UserSignUpV {
    /// Characters of the mint URL.
    pub mint: Seq<char>,
    /// Characters of the username.
    pub username: Seq<char>,
    /// Characters of each relay URL, in order.
    pub relays: Seq<Seq<char>>,
}

impl View for UserSignUp {
    type V = UserSignUpV;

    open spec fn view(&self) -> UserSignUpV {
        UserSignUpV { mint: self.mint@, username: self.username@, relays: self.relays.deep_view() }
    }
}

/// A message raised by the view layer or by a completed effect.
#[derive(Clone)]
pub enum Msg {
    /// The extension answered a key request; an empty string reports
    /// failure.
    SetPubkey(String),
    /// The user asked to fetch the key from the NIP-07 extension.
    GetNIP07Key,
    /// The user confirmed the entered fields.
    Next,
    /// The user confirmed the summary and asked to sign up.
    Submit,
}

/// Mathematical model of a [`Msg`].
pub ghost enum MsgV {
    /// Key answer from the extension.
    SetPubkey(Seq<char>),
    /// Key requested from the extension.
    GetNIP07Key,
    /// Fields confirmed.
    Next,
    /// Summary confirmed.
    Submit,
}

impl View for Msg {
    type V = MsgV;

    open spec fn view(&self) -> MsgV {
        match self {
            Msg::SetPubkey(s) => MsgV::SetPubkey(s@),
            Msg::GetNIP07Key => MsgV::GetNIP07Key,
            Msg::Next => MsgV::Next,
            Msg::Submit => MsgV::Submit,
        }
    }
}

/// The current text of the three form fields, read verbatim.
pub struct Inputs {
    /// The public-key field.
    pub pubkey_input: String,
    /// The username field.
    pub username_input: String,
    /// The mint URL field.
    pub mint_input: String,
}

/// Mathematical model of [`Inputs`].
pub ghost struct InputsV {
    /// Characters of the public-key field.
    pub pubkey_input: Seq<char>,
    /// Characters of the username field.
    pub username_input: Seq<char>,
    /// Characters of the mint field.
    pub mint_input: Seq<char>,
}

impl View for Inputs {
    type V = InputsV;

    open spec fn view(&self) -> InputsV {
        InputsV {
            pubkey_input: self.pubkey_input@,
            username_input: self.username_input@,
            mint_input: self.mint_input@,
        }
    }
}

/// One piece of outside work requested by a transition.
pub enum Effect {
    /// Nothing to do.
    NoOp,
    /// Ask the NIP-07 extension for the public key; report the answer with
    /// [`Msg::SetPubkey`].
    FetchPubkey,
    /// Open the relay client bound to this public key.
    CreateClient {
        /// The key the client identity is bound to, verbatim.
        pubkey: String,
    },
    /// Run the encrypt-sign-publish sequence for one serialized payload.
    StartSubmission {
        /// The canonical serialization of the [`UserSignUp`] payload.
        payload: String,
        /// The sender's public key, as stored by the wizard.
        sender_pubkey: String,
        /// The configured service key the payload is encrypted to.
        recipient_pubkey: String,
    },
}

/// Mathematical model of an [`Effect`].
pub ghost enum EffectV {
    /// Nothing to do.
    NoOp,
    /// Key requested from the extension.
    FetchPubkey,
    /// Relay client requested.
    CreateClient {
        /// Characters of the key.
        pubkey: Seq<char>,
    },
    /// Encrypt-sign-publish requested.
    StartSubmission {
        /// Characters of the serialized payload.
        payload: Seq<char>,
        /// Characters of the sender key.
        sender_pubkey: Seq<char>,
        /// Characters of the recipient key.
        recipient_pubkey: Seq<char>,
    },
}

impl View for Effect {
    type V = EffectV;

    open spec fn view(&self) -> EffectV {
        match self {
            Effect::NoOp => EffectV::NoOp,
            Effect::FetchPubkey => EffectV::FetchPubkey,
            Effect::CreateClient { pubkey } => EffectV::CreateClient { pubkey: pubkey@ },
            Effect::StartSubmission { payload, sender_pubkey, recipient_pubkey } => (
            EffectV::StartSubmission {
                payload: payload@,
                sender_pubkey: sender_pubkey@,
                recipient_pubkey: recipient_pubkey@,
            }),
        }
    }
}

/// The sign-up wizard state: the stage, the collected fields, and the
/// configured service identity.
pub struct App {
    /// The wizard stage.
    pub state: State,
    /// Hex public key of the service the payload is encrypted to; fixed at
    /// construction.
    pub lnurl_service_pubkey: String,
    /// The sender's public key, once obtained or entered.
    pub pubkey: Option<String>,
    /// The username, once entered.
    pub username: Option<String>,
    /// The mint URL, once entered.
    pub mint: Option<String>,
    /// The Lightning-Address domain shown next to the username.
    pub domain: String,
    /// Whether a relay client has been requested.
    pub has_client: bool,
}

/// Mathematical model of an [`App`].
pub ghost struct AppV {
    /// The wizard stage.
    pub state: State,
    /// Characters of the configured service key.
    pub lnurl_service_pubkey: Seq<char>,
    /// Characters of the stored sender key, if any.
    pub pubkey: Option<Seq<char>>,
    /// Characters of the stored username, if any.
    pub username: Option<Seq<char>>,
    /// Characters of the stored mint URL, if any.
    pub mint: Option<Seq<char>>,
    /// Characters of the domain.
    pub domain: Seq<char>,
    /// Whether a relay client has been requested.
    pub has_client: bool,
}

impl View for App {
    type V = AppV;

    open spec fn view(&self) -> AppV {
        AppV {
            state: self.state,
            lnurl_service_pubkey: self.lnurl_service_pubkey@,
            pubkey: match self.pubkey {
                Some(ref s) => Some(s@),
                None => None,
            },
            username: match self.username {
                Some(ref s) => Some(s@),
                None => None,
            },
            mint: match self.mint {
                Some(ref s) => Some(s@),
                None => None,
            },
            domain: self.domain@,
            has_client: self.has_client,
        }
    }
}

/// Well-formedness: a relay client has been requested exactly when a key
/// is stored, and past the first stage all three fields are stored.
pub open spec fn app_wf(a: AppV) -> bool {
    &&& (a.pubkey is Some <==> a.has_client)
    &&& (a.state != State::Enterinfo ==> a.pubkey is Some && a.username is Some && a.mint is Some)
}

/// The transition function of the wizard.
///
/// Stored keys are kept verbatim; an empty key answer from the extension
/// stores nothing, so the next [`MsgV::Next`] falls back to the typed
/// field.  The relay client is bootstrapped on the first key acquisition
/// only, so at most one [`EffectV::CreateClient`] is emitted per session.
/// [`State::SignedUp`] is terminal.
pub open spec fn spec_update(pre: AppV, msg: MsgV, inputs: InputsV) -> (AppV, EffectV) {
    match msg {
        MsgV::GetNIP07Key => {
            if pre.state == State::Enterinfo {
                (pre, EffectV::FetchPubkey)
            } else {
                (pre, EffectV::NoOp)
            }
        },
        MsgV::SetPubkey(p) => {
            if pre.state == State::Enterinfo && pre.pubkey is None && p.len() > 0 {
                (
                    AppV { pubkey: Some(p), has_client: true, ..pre },
                    EffectV::CreateClient { pubkey: p },
                )
            } else {
                (pre, EffectV::NoOp)
            }
        },
        MsgV::Next => {
            if pre.state == State::Enterinfo {
                let stored = if pre.pubkey is Some {
                    pre.pubkey->0
                } else {
                    inputs.pubkey_input
                };
                let eff = if pre.pubkey is Some {
                    EffectV::NoOp
                } else {
                    EffectV::CreateClient { pubkey: inputs.pubkey_input }
                };
                (
                    AppV {
                        state: State::VerifyInfo,
                        pubkey: Some(stored),
                        username: Some(inputs.username_input),
                        mint: Some(inputs.mint_input),
                        has_client: true,
                        ..pre
                    },
                    eff,
                )
            } else {
                (pre, EffectV::NoOp)
            }
        },
        MsgV::Submit => {
            if pre.state == State::VerifyInfo && pre.has_client && pre.pubkey is Some
                && pre.username is Some && pre.mint is Some {
                (
                    AppV { state: State::SignedUp, ..pre },
                    EffectV::StartSubmission {
                        payload: spec_serialize(
                            UserSignUpV {
                                mint: pre.mint->0,
                                username: pre.username->0,
                                relays: Seq::empty(),
                            },
                        ),
                        sender_pubkey: pre.pubkey->0,
                        recipient_pubkey: pre.lnurl_service_pubkey,
                    },
                )
            } else {
                (pre, EffectV::NoOp)
            }
        },
    }
}

impl App {
    /// A fresh wizard in the first stage, bound to the configured service
    /// key (hex) and Lightning-Address domain.
    pub fn create(lnurl_service_pubkey: String, domain: String) -> (app: App)
        ensures
            app@ == (AppV {
                state: State::Enterinfo,
                lnurl_service_pubkey: lnurl_service_pubkey@,
                pubkey: None,
                username: None,
                mint: None,
                domain: domain@,
                has_client: false,
            }),
    {
        App {
            state: State::Enterinfo,
            lnurl_service_pubkey,
            pubkey: None,
            username: None,
            mint: None,
            domain,
            has_client: false,
        }
    }

    /// Applies one message to the wizard and returns the effect the host
    /// must perform, exactly as [`spec_update`] says.
    pub fn update(&mut self, msg: Msg, inputs: &Inputs) -> (eff: Effect)
        ensures
            final(self)@ == spec_update(old(self)@, msg@, inputs@).0,
            eff@ == spec_update(old(self)@, msg@, inputs@).1,
    {
        match msg {
            Msg::GetNIP07Key => {
                if self.state == State::Enterinfo {
                    Effect::FetchPubkey
                } else {
                    Effect::NoOp
                }
            },
            Msg::SetPubkey(p) => {
                if self.state == State::Enterinfo && self.pubkey.is_none() && !p.as_str().is_empty() {
                    let stored = p.clone();
                    self.pubkey = Some(stored);
                    self.has_client = true;
                    Effect::CreateClient { pubkey: p }
                } else {
                    Effect::NoOp
                }
            },
            Msg::Next => {
                if self.state == State::Enterinfo {
                    let eff: Effect;
                    if self.pubkey.is_none() {
                        self.pubkey = Some(inputs.pubkey_input.clone());
                        eff = Effect::CreateClient { pubkey: inputs.pubkey_input.clone() };
                    } else {
                        eff = Effect::NoOp;
                    }
                    self.username = Some(inputs.username_input.clone());
                    self.mint = Some(inputs.mint_input.clone());
                    self.state = State::VerifyInfo;
                    self.has_client = true;
                    eff
                } else {
                    Effect::NoOp
                }
            },
            Msg::Submit => {
                if self.state == State::VerifyInfo && self.has_client && self.pubkey.is_some()
                    && self.username.is_some() && self.mint.is_some() {
                    let mint = if let Some(m) = &self.mint {
                        m.clone()
                    } else {
                        String::new()
                    };
                    let username = if let Some(u) = &self.username {
                        u.clone()
                    } else {
                        String::new()
                    };
                    let sender = if let Some(pk) = &self.pubkey {
                        pk.clone()
                    } else {
                        String::new()
                    };
                    let signup_msg = UserSignUp { mint, username, relays: Vec::new() };
                    proof {
                        assert(signup_msg@.relays =~= Seq::<Seq<char>>::empty());
                    }
                    let payload = serialize_user_signup(&signup_msg);
                    self.state = State::SignedUp;
                    Effect::StartSubmission {
                        payload,
                        sender_pubkey: sender,
                        recipient_pubkey: self.lnurl_service_pubkey.clone(),
                    }
                } else {
                    Effect::NoOp
                }
            },
        }
    }
}

/// The configured service key is never changed by a transition, and every
/// submission effect encrypts and tags for exactly that key — never one
/// supplied by the user.
pub proof fn lemma_service_key_fixed(pre: AppV, msg: MsgV, inputs: InputsV)
    ensures
        spec_update(pre, msg, inputs).0.lnurl_service_pubkey == pre.lnurl_service_pubkey,
        (spec_update(pre, msg, inputs).1 matches EffectV::StartSubmission { recipient_pubkey, .. }
            ==> recipient_pubkey == pre.lnurl_service_pubkey),
{
}

/// Submitting from the verify stage always signs the user up and emits
/// exactly one submission effect, carrying the one canonical serialization
/// of the collected payload with an empty relay list.
pub proof fn lemma_submit_from_verify(pre: AppV, inputs: InputsV)
    requires
        app_wf(pre),
        pre.state == State::VerifyInfo,
    ensures
        spec_update(pre, MsgV::Submit, inputs).0.state == State::SignedUp,
        spec_update(pre, MsgV::Submit, inputs).1 == (EffectV::StartSubmission {
            payload: spec_serialize(
                UserSignUpV { mint: pre.mint->0, username: pre.username->0, relays: Seq::empty() },
            ),
            sender_pubkey: pre.pubkey->0,
            recipient_pubkey: pre.lnurl_service_pubkey,
        }),
{
}

/// Requesting the key from the extension keeps the wizard in the first
/// stage; only the answer can change anything.
pub proof fn lemma_get_key_stays_in_first_stage(pre: AppV, inputs: InputsV)
    requires
        pre.state == State::Enterinfo,
    ensures
        spec_update(pre, MsgV::GetNIP07Key, inputs).0 == pre,
        spec_update(pre, MsgV::GetNIP07Key, inputs).1 == EffectV::FetchPubkey,
{
}

/// An empty key answer from the extension stores nothing and changes
/// nothing: the wizard keeps waiting for a manual entry.
pub proof fn lemma_empty_key_answer_ignored(pre: AppV, inputs: InputsV)
    ensures
        spec_update(pre, MsgV::SetPubkey(Seq::empty()), inputs).0 == pre,
        spec_update(pre, MsgV::SetPubkey(Seq::empty()), inputs).1 == EffectV::NoOp,
{
}

/// The relay bootstrap happens at most once per session: once a key is
/// stored it never changes, and no later transition asks for another
/// client; conversely, a client is only ever requested by the transition
/// that stores the first key.
pub proof fn lemma_client_bootstrap_once(pre: AppV, msg: MsgV, inputs: InputsV)
    ensures
        pre.pubkey is Some ==> spec_update(pre, msg, inputs).0.pubkey == pre.pubkey,
        pre.pubkey is Some ==> !(spec_update(pre, msg, inputs).1 is CreateClient),
        spec_update(pre, msg, inputs).1 is CreateClient ==> pre.pubkey is None,
{
}

/// Without a relay client nothing is submitted: the stage stays at the
/// summary and no outside work is requested.
pub proof fn lemma_submit_needs_client(pre: AppV, inputs: InputsV)
    requires
        pre.state == State::VerifyInfo,
        !pre.has_client,
    ensures
        spec_update(pre, MsgV::Submit, inputs).0 == pre,
        spec_update(pre, MsgV::Submit, inputs).1 == EffectV::NoOp,
{
}

/// With no stored key, the next wizard step stores the manually entered
/// key field verbatim.
pub proof fn lemma_next_manual_pubkey(pre: AppV, inputs: InputsV)
    requires
        pre.state == State::Enterinfo,
        pre.pubkey is None,
    ensures
        spec_update(pre, MsgV::Next, inputs).0.pubkey == Some(inputs.pubkey_input),
{
}

/// Entering the same text into the key field always stores the same key:
/// the manual fallback is idempotent in the entered text.
pub proof fn lemma_next_manual_pubkey_idempotent(pre1: AppV, pre2: AppV, inputs: InputsV)
    requires
        pre1.state == State::Enterinfo,
        pre1.pubkey is None,
        pre2.state == State::Enterinfo,
        pre2.pubkey is None,
    ensures
        spec_update(pre1, MsgV::Next, inputs).0.pubkey == spec_update(
            pre2,
            MsgV::Next,
            inputs,
        ).0.pubkey,
{
}

/// Every transition preserves well-formedness.
pub proof fn lemma_update_preserves_wf(pre: AppV, msg: MsgV, inputs: InputsV)
    requires
        app_wf(pre),
    ensures
        app_wf(spec_update(pre, msg, inputs).0),
{
}

/// The signed-up stage is terminal: no message changes the state or asks
/// for more work, whatever the outside world reports.
pub proof fn lemma_signed_up_terminal(pre: AppV, msg: MsgV, inputs: InputsV)
    requires
        pre.state == State::SignedUp,
    ensures
        spec_update(pre, msg, inputs).0 == pre,
        spec_update(pre, msg, inputs).1 == EffectV::NoOp,
{
}

} // verus!
