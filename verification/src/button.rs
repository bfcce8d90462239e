//! Logical button identities and the event encoder.
//!
//! A `ButtonEvent` names one of the fixed enumeration of logical
//! controller-button identities. The encoder maps it to its canonical
//! textual wire form, `"BTN-<ButtonName>"`, the only payload ever sent
//! to clients.

use vstd::prelude::*;

verus! {

/// One of the fixed logical controller-button identities.
#[derive(Clone, Copy, PartialEq, Eq, Structural, Debug)]
pub enum ButtonEvent {
    DPadUp,
    DPadDown,
    DPadLeft,
    DPadRight,
    North,
    South,
    East,
    West,
}

/// The canonical wire form of a button event: `"BTN-"` followed by the
/// button's name.
pub open spec fn encoded(b: ButtonEvent) -> Seq<char> {
    match b {
        ButtonEvent::DPadUp => "BTN-DPadUp"@,
        ButtonEvent::DPadDown => "BTN-DPadDown"@,
        ButtonEvent::DPadLeft => "BTN-DPadLeft"@,
        ButtonEvent::DPadRight => "BTN-DPadRight"@,
        ButtonEvent::North => "BTN-North"@,
        ButtonEvent::South => "BTN-South"@,
        ButtonEvent::East => "BTN-East"@,
        ButtonEvent::West => "BTN-West"@,
    }
}

/// A captured input activation, carrying the logical button it signals.
pub struct DaemonEventButton {
    pub event: ButtonEvent,
}

impl DaemonEventButton {
    /// Encodes the activation into its wire form.
    pub fn to_string(&self) -> (r: String)
        ensures
            r@ == encoded(self.event),
    {
        match self.event {
            ButtonEvent::DPadUp => "BTN-DPadUp".to_owned(),
            ButtonEvent::DPadDown => "BTN-DPadDown".to_owned(),
            ButtonEvent::DPadLeft => "BTN-DPadLeft".to_owned(),
            ButtonEvent::DPadRight => "BTN-DPadRight".to_owned(),
            ButtonEvent::North => "BTN-North".to_owned(),
            ButtonEvent::South => "BTN-South".to_owned(),
            ButtonEvent::East => "BTN-East".to_owned(),
            ButtonEvent::West => "BTN-West".to_owned(),
        }
    }
}

/// Every event's wire form carries the `"BTN-"` prefix.
pub proof fn lemma_encoded_prefix(b: ButtonEvent)
    ensures
        encoded(b).len() > 4,
        encoded(b).subrange(0, 4) =~= "BTN-"@,
{
    reveal_strlit("BTN-");
    reveal_strlit("BTN-DPadUp");
    reveal_strlit("BTN-DPadDown");
    reveal_strlit("BTN-DPadLeft");
    reveal_strlit("BTN-DPadRight");
    reveal_strlit("BTN-North");
    reveal_strlit("BTN-South");
    reveal_strlit("BTN-East");
    reveal_strlit("BTN-West");
}

/// Distinct button identities encode to distinct wire strings.
pub proof fn lemma_encoded_distinct(a: ButtonEvent, b: ButtonEvent)
    requires
        a != b,
    ensures
        encoded(a) != encoded(b),
{
    reveal_strlit("BTN-DPadUp");
    reveal_strlit("BTN-DPadDown");
    reveal_strlit("BTN-DPadLeft");
    reveal_strlit("BTN-DPadRight");
    reveal_strlit("BTN-North");
    reveal_strlit("BTN-South");
    reveal_strlit("BTN-East");
    reveal_strlit("BTN-West");
    assert(encoded(ButtonEvent::DPadUp).len() == 10);
    assert(encoded(ButtonEvent::DPadDown).len() == 12);
    assert(encoded(ButtonEvent::DPadLeft).len() == 12);
    assert(encoded(ButtonEvent::DPadRight).len() == 13);
    assert(encoded(ButtonEvent::North).len() == 9);
    assert(encoded(ButtonEvent::South).len() == 9);
    assert(encoded(ButtonEvent::East).len() == 8);
    assert(encoded(ButtonEvent::West).len() == 8);
    assert(encoded(ButtonEvent::DPadDown)[8] == 'D');
    assert(encoded(ButtonEvent::DPadLeft)[8] == 'L');
    assert(encoded(ButtonEvent::North)[4] == 'N');
    assert(encoded(ButtonEvent::South)[4] == 'S');
    assert(encoded(ButtonEvent::East)[4] == 'E');
    assert(encoded(ButtonEvent::West)[4] == 'W');
}

} // verus!
