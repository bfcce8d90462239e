//! A local broadcast relay core: input activations are encoded as canonical
//! button-event strings and fanned out to every connected listener session.
//!
//! The crate verifies the session/broadcast logic: the event encoder, the
//! key-to-button binding table, the session registry, the broadcast server
//! and the port configuration. Transport and input capture stay outside.

pub mod button;
pub mod config;
pub mod keys;
pub mod registry;
pub mod server;
