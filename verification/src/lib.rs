//! Sign-up flow for a Lightning-Address-style username bound to a Nostr
//! public key and a Cashu mint: a three-stage wizard state machine, the
//! JSON encoding of the sign-up payload, and assembly of the custom Nostr
//! event that carries it.

pub mod app;
pub mod codec;
pub mod event;
pub mod submit;
pub mod utils;
