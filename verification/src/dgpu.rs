//! The power state of the discrete GPU.

use vstd::prelude::*;
use crate::error::ErrorKind;
use crate::text::{str_eq, trim, trimmed};

verus! {

/// Whether the discrete GPU is powered.
#[derive(Debug, Clone, Copy, PartialEq, Eq, Structural)]
pub enum PowerState {
    On,
    Off,
}

/// The text given names no power state.
#[derive(Debug, Clone, Copy, PartialEq, Eq, Structural)]
pub struct InvalidPowerStateError;

impl PowerState {
    /// The name of the state, as the device's attribute file takes it.
    pub open spec fn name(self) -> Seq<char> {
        match self {
            PowerState::Off => "off"@,
            PowerState::On => "on"@,
        }
    }

    /// The state that a text names: by number or by word.
    pub open spec fn parse(text: Seq<char>) -> Option<PowerState> {
        if text == "0"@ || text == "off"@ {
            Some(PowerState::Off)
        } else if text == "1"@ || text == "on"@ {
            Some(PowerState::On)
        } else {
            None
        }
    }

    /// Parses the name or the number of a power state.
    pub fn from_str(s: &str) -> (state: Option<Self>)
        ensures
            state == PowerState::parse(s@),
    {
        if str_eq(s, "0") || str_eq(s, "off") {
            Some(PowerState::Off)
        } else if str_eq(s, "1") || str_eq(s, "on") {
            Some(PowerState::On)
        } else {
            None
        }
    }

    /// The name of the state, as the device's attribute file takes it.
    pub fn as_str(self) -> (text: &'static str)
        ensures
            text@ == self.name(),
    {
        match self {
            PowerState::Off => "off",
            PowerState::On => "on",
        }
    }

    /// The state that the text of the attribute file stands for: the text
    /// is trimmed, then parsed. A text that names no state is invalid data.
    pub fn from_attribute(text: &str) -> (state: Result<Self, ErrorKind>)
        ensures
            state == match PowerState::parse(trimmed(text@)) {
                Some(s) => Ok::<PowerState, ErrorKind>(s),
                None => Err::<PowerState, ErrorKind>(ErrorKind::InvalidData),
            },
    {
        match PowerState::from_str(trim(text)) {
            Some(state) => Ok(state),
            None => Err(ErrorKind::InvalidData),
        }
    }
}

impl core::str::FromStr for PowerState {
    type Err = InvalidPowerStateError;

    fn from_str(s: &str) -> Result<Self, InvalidPowerStateError>
        returns
            match PowerState::parse(s@) {
                Some(state) => Ok::<PowerState, InvalidPowerStateError>(state),
                None => Err::<PowerState, InvalidPowerStateError>(InvalidPowerStateError),
            },
    {
        match PowerState::from_str(s) {
            Some(state) => Ok(state),
            None => Err(InvalidPowerStateError),
        }
    }
}

/// The name of a state parses back to that state.
pub proof fn lemma_power_state_round_trip(state: PowerState)
    ensures
        PowerState::parse(state.name()) == Some(state),
{
    reveal_strlit("0");
    reveal_strlit("1");
    reveal_strlit("off");
    reveal_strlit("on");
    assert("on"@.len() == 2);
    assert("off"@.len() == 3);
    assert("0"@.len() == 1);
}

} // verus!
