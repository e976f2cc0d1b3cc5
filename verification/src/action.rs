use vstd::prelude::*;

use crate::consts::DO;
use crate::consts::DONT;
use crate::consts::WILL;
use crate::consts::WONT;

verus! {

/// Telnet Negotiation Action
#[derive(Clone, Copy, Debug, Eq, Hash, PartialEq, Structural)]
pub enum TelnetAction {
    /// Request performance of option from Remote to Local
    Do,
    /// Terminate performance of option from Remote to Local
    Dont,
    /// Request performance of option from Local to Remote
    Will,
    /// Terminate performance of option from Local to Remote
    Wont,
    /// No idea what we received
    Unknown(u8),
}

/// The negotiation action a command byte names.
pub open spec fn spec_action_of(byte: u8) -> TelnetAction {
    if byte == DO {
        TelnetAction::Do
    } else if byte == DONT {
        TelnetAction::Dont
    } else if byte == WILL {
        TelnetAction::Will
    } else if byte == WONT {
        TelnetAction::Wont
    } else {
        TelnetAction::Unknown(byte)
    }
}

/// The command byte of a negotiation action.
pub open spec fn spec_action_code(action: TelnetAction) -> u8 {
    match action {
        TelnetAction::Do => DO,
        TelnetAction::Dont => DONT,
        TelnetAction::Will => WILL,
        TelnetAction::Wont => WONT,
        TelnetAction::Unknown(byte) => byte,
    }
}

impl From<u8> for TelnetAction {
    /// The negotiation action a command byte names.
    fn from(byte: u8) -> (r: TelnetAction) {
        if byte == DO {
            TelnetAction::Do
        } else if byte == DONT {
            TelnetAction::Dont
        } else if byte == WILL {
            TelnetAction::Will
        } else if byte == WONT {
            TelnetAction::Wont
        } else {
            TelnetAction::Unknown(byte)
        }
    }
}

impl vstd::std_specs::convert::FromSpecImpl<u8> for TelnetAction {
    open spec fn obeys_from_spec() -> bool {
        true
    }

    open spec fn from_spec(byte: u8) -> TelnetAction {
        spec_action_of(byte)
    }
}

impl From<TelnetAction> for u8 {
    /// The command byte of a negotiation action.
    fn from(action: TelnetAction) -> (r: u8) {
        match action {
            TelnetAction::Do => DO,
            TelnetAction::Dont => DONT,
            TelnetAction::Will => WILL,
            TelnetAction::Wont => WONT,
            TelnetAction::Unknown(byte) => byte,
        }
    }
}

impl vstd::std_specs::convert::FromSpecImpl<TelnetAction> for u8 {
    open spec fn obeys_from_spec() -> bool {
        true
    }

    open spec fn from_spec(action: TelnetAction) -> u8 {
        spec_action_code(action)
    }
}

/// Taking a command byte to its action and back is the identity.
pub proof fn lemma_action_code_round_trip(byte: u8)
    ensures
        spec_action_code(spec_action_of(byte)) == byte,
{
}

} // verus!
