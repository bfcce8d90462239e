//! The input-source binding table.
//!
//! The daemon binds a fixed set of physical key identities, two tetrads of
//! four: the WASD-style group and the arrow-style group, each mapped to the
//! four cardinal button identities. Unbound keys have no entry here and so
//! never produce an event.

use vstd::prelude::*;
use crate::button::{ButtonEvent, DaemonEventButton, encoded};

verus! {

/// A physical key identity that the daemon binds to a logical button.
#[derive(Clone, Copy, PartialEq, Eq, Structural, Debug)]
pub enum BoundKey {
    KeyA,
    KeyS,
    KeyD,
    KeyW,
    KeyUp,
    KeyLeft,
    KeyRight,
    KeyDown,
}

/// The button identity statically bound to each key: the WASD tetrad feeds
/// the directional pad, the arrow tetrad the cardinal face buttons.
pub open spec fn bound_button_of(k: BoundKey) -> ButtonEvent {
    match k {
        BoundKey::KeyA => ButtonEvent::DPadLeft,
        BoundKey::KeyS => ButtonEvent::DPadDown,
        BoundKey::KeyD => ButtonEvent::DPadRight,
        BoundKey::KeyW => ButtonEvent::DPadUp,
        BoundKey::KeyUp => ButtonEvent::North,
        BoundKey::KeyLeft => ButtonEvent::West,
        BoundKey::KeyRight => ButtonEvent::East,
        BoundKey::KeyDown => ButtonEvent::South,
    }
}

/// Looks up the button bound to a key. Total: every bound key has exactly
/// one button.
pub fn bound_button(k: BoundKey) -> (b: ButtonEvent)
    ensures
        b == bound_button_of(k),
{
    match k {
        BoundKey::KeyA => ButtonEvent::DPadLeft,
        BoundKey::KeyS => ButtonEvent::DPadDown,
        BoundKey::KeyD => ButtonEvent::DPadRight,
        BoundKey::KeyW => ButtonEvent::DPadUp,
        BoundKey::KeyUp => ButtonEvent::North,
        BoundKey::KeyLeft => ButtonEvent::West,
        BoundKey::KeyRight => ButtonEvent::East,
        BoundKey::KeyDown => ButtonEvent::South,
    }
}

/// The whole encoder path of one key activation: the key's bound button,
/// in wire form. This is what an input callback publishes.
pub fn encode_key(k: BoundKey) -> (r: String)
    ensures
        r@ == encoded(bound_button_of(k)),
{
    let activation = DaemonEventButton { event: bound_button(k) };
    activation.to_string()
}

} // verus!
