//! The performance mode of the device.

use vstd::prelude::*;
use crate::error::ErrorKind;
use crate::text::{str_eq, trim, trimmed};

verus! {

/// A performance mode.
#[derive(Debug, Clone, Copy, PartialEq, Eq, Structural)]
pub enum Mode {
    Normal,
    Battery,
    Perf1,
    Perf2,
}

/// The text given was not the number of a performance mode.
#[derive(Debug, Clone, Copy, PartialEq, Eq, Structural)]
pub struct InvalidPerformanceModeError;

impl Mode {
    /// The number of the mode, as the device's attribute file spells it.
    pub open spec fn short_name(self) -> Seq<char> {
        match self {
            Mode::Normal => "1"@,
            Mode::Battery => "2"@,
            Mode::Perf1 => "3"@,
            Mode::Perf2 => "4"@,
        }
    }

    /// The name of the mode for a reader.
    pub open spec fn long_name(self) -> Seq<char> {
        match self {
            Mode::Normal => "Normal"@,
            Mode::Battery => "Battery-Saver"@,
            Mode::Perf1 => "Better Performance"@,
            Mode::Perf2 => "Best Performance"@,
        }
    }

    /// The mode whose number a text spells, if it spells one.
    pub open spec fn parse(text: Seq<char>) -> Option<Mode> {
        if text == "1"@ {
            Some(Mode::Normal)
        } else if text == "2"@ {
            Some(Mode::Battery)
        } else if text == "3"@ {
            Some(Mode::Perf1)
        } else if text == "4"@ {
            Some(Mode::Perf2)
        } else {
            None
        }
    }

    /// Parses the number of a mode.
    pub fn from_str(s: &str) -> (mode: Option<Self>)
        ensures
            mode == Mode::parse(s@),
    {
        if str_eq(s, "1") {
            Some(Mode::Normal)
        } else if str_eq(s, "2") {
            Some(Mode::Battery)
        } else if str_eq(s, "3") {
            Some(Mode::Perf1)
        } else if str_eq(s, "4") {
            Some(Mode::Perf2)
        } else {
            None
        }
    }

    /// The number of the mode, as the device's attribute file spells it.
    pub fn short_str(self) -> (text: &'static str)
        ensures
            text@ == self.short_name(),
    {
        match self {
            Mode::Normal => "1",
            Mode::Battery => "2",
            Mode::Perf1 => "3",
            Mode::Perf2 => "4",
        }
    }

    /// The number of the mode: the same text as [`short_str`](Self::short_str).
    pub fn as_str(&self) -> (text: &'static str)
        ensures
            text@ == self.short_name(),
    {
        self.short_str()
    }

    /// The name of the mode for a reader.
    pub fn long_str(self) -> (text: &'static str)
        ensures
            text@ == self.long_name(),
    {
        match self {
            Mode::Normal => "Normal",
            Mode::Battery => "Battery-Saver",
            Mode::Perf1 => "Better Performance",
            Mode::Perf2 => "Best Performance",
        }
    }

    /// The mode that the text of the attribute file stands for: the text is
    /// trimmed, then parsed. A text that spells no mode is invalid data.
    pub fn from_attribute(text: &str) -> (mode: Result<Self, ErrorKind>)
        ensures
            mode == match Mode::parse(trimmed(text@)) {
                Some(m) => Ok::<Mode, ErrorKind>(m),
                None => Err::<Mode, ErrorKind>(ErrorKind::InvalidData),
            },
    {
        match Mode::from_str(trim(text)) {
            Some(mode) => Ok(mode),
            None => Err(ErrorKind::InvalidData),
        }
    }
}

impl core::str::FromStr for Mode {
    type Err = InvalidPerformanceModeError;

    fn from_str(s: &str) -> Result<Self, InvalidPerformanceModeError>
        returns
            match Mode::parse(s@) {
                Some(mode) => Ok::<Mode, InvalidPerformanceModeError>(mode),
                None => Err::<Mode, InvalidPerformanceModeError>(InvalidPerformanceModeError),
            },
    {
        match Mode::from_str(s) {
            Some(mode) => Ok(mode),
            None => Err(InvalidPerformanceModeError),
        }
    }
}

/// The number of a mode parses back to that mode, and no two modes share a
/// number.
pub proof fn lemma_mode_round_trip(mode: Mode)
    ensures
        Mode::parse(mode.short_name()) == Some(mode),
{
    reveal_strlit("1");
    reveal_strlit("2");
    reveal_strlit("3");
    reveal_strlit("4");
    assert("1"@[0] == '1');
    assert("2"@[0] == '2');
    assert("3"@[0] == '3');
    assert("4"@[0] == '4');
}

} // verus!
