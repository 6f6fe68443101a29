//! The overview of the system's status: what was found of each subsystem,
//! and whether anything was found at all.

use vstd::prelude::*;
use vstd::string::StringExecFns;
use crate::dtx::{BaseInfo, BaseState, DeviceMode, DeviceType, LatchStatus};
use crate::pci;
use crate::text::{hex, hex_digits, hex_padded, hex_prefixed};

verus! {

/// What was found of the platform profile.
#[derive(Debug, Clone, PartialEq, Eq)]
pub struct ProfileStats {
    pub current: String,
    pub supported: Vec<String>,
}

/// How one profile of the list is shown: the current one in brackets.
pub open spec fn shown(profile: Seq<char>, current: Seq<char>) -> Seq<char> {
    if profile == current {
        "["@ + profile + "]"@
    } else {
        profile
    }
}

/// How the first `count` profiles of a list are shown: each as [`shown`]
/// has it, with one space between two of them.
pub open spec fn shown_list(supported: Seq<String>, current: Seq<char>, count: nat) -> Seq<char>
    decreases count,
{
    if count == 0 {
        Seq::empty()
    } else if count == 1 {
        shown(supported[0]@, current)
    } else {
        shown_list(supported, current, (count - 1) as nat) + " "@ + shown(
            supported[count - 1]@,
            current,
        )
    }
}

impl ProfileStats {
    /// What is found where the device gives no answer: nothing.
    pub fn load(current: Option<String>, supported: Option<Vec<String>>) -> (stats: ProfileStats)
        ensures
            stats.current@ == (match current {
                Some(text) => text@,
                None => Seq::empty(),
            }),
            stats.supported@ == (match supported {
                Some(list) => list@,
                None => Seq::empty(),
            }),
    {
        ProfileStats {
            current: match current {
                Some(text) => text,
                None => String::new(),
            },
            supported: match supported {
                Some(list) => list,
                None => Vec::new(),
            },
        }
    }

    /// Whether a profile is set and the list of profiles is known.
    pub open spec fn spec_available(&self) -> bool {
        self.supported@.len() > 0 && self.current@.len() > 0
    }

    /// Whether a profile is set and the list of profiles is known.
    #[verifier::when_used_as_spec(spec_available)]
    pub fn available(&self) -> (found: bool)
        ensures
            found == self.spec_available(),
    {
        self.supported.len() > 0 && !self.current.as_str().is_empty()
    }

    /// The list of profiles on one line, the current one in brackets.
    pub fn profiles(&self) -> (line: String)
        ensures
            line@ == shown_list(self.supported@, self.current@, self.supported@.len()),
    {
        let mut line = String::new();
        let mut i: usize = 0;
        while i < self.supported.len()
            invariant
                i <= self.supported@.len(),
                line@ == shown_list(self.supported@, self.current@, i as nat),
            decreases self.supported@.len() - i,
        {
            let ghost before = line@;
            if i > 0 {
                line.append(" ");
            }
            let profile = &self.supported[i];
            if *profile == self.current {
                line.append("[");
                line.append(profile.as_str());
                line.append("]");
            } else {
                line.append(profile.as_str());
            }
            proof {
                let entry = shown(self.supported@[i as int]@, self.current@);
                if i == 0 {
                    assert(before =~= Seq::<char>::empty());
                    assert(line@ =~= entry);
                } else {
                    assert(line@ =~= before + " "@ + entry);
                }
            }
            i += 1;
        }
        line
    }
}

/// What was found of the discrete GPU.
#[derive(Debug, Clone, Copy, PartialEq, Eq, Structural)]
pub struct DgpuStats {
    pub vendor: Option<u16>,
    pub device: Option<u16>,
    pub power_state: Option<pci::PowerState>,
    pub runtime_pm: Option<pci::RuntimePowerManagement>,
}

impl DgpuStats {
    /// Whether anything was found of the discrete GPU.
    pub open spec fn spec_available(&self) -> bool {
        ||| self.vendor is Some
        ||| self.device is Some
        ||| self.power_state is Some
        ||| self.runtime_pm is Some
    }

    /// Whether anything was found of the discrete GPU.
    #[verifier::when_used_as_spec(spec_available)]
    pub fn available(&self) -> (found: bool)
        ensures
            found == self.spec_available(),
    {
        self.vendor.is_some() || self.device.is_some() || self.power_state.is_some()
            || self.runtime_pm.is_some()
    }
}

/// What was found of the detachment system.
#[derive(Debug, Clone, Copy, PartialEq, Eq, Structural)]
pub struct DtxStats {
    pub device_mode: Option<DeviceMode>,
    pub base_state: Option<BaseState>,
    pub base_type: Option<DeviceType>,
    pub base_id: Option<u8>,
    pub latch_status: Option<LatchStatus>,
}

impl DtxStats {
    /// Gathers the answers of the three queries. The base info, where there
    /// is one, gives state, type and id of the base.
    pub fn load(
        base: Option<BaseInfo>,
        device_mode: Option<DeviceMode>,
        latch_status: Option<LatchStatus>,
    ) -> (stats: DtxStats)
        ensures
            stats.device_mode == device_mode,
            stats.latch_status == latch_status,
            match base {
                Some(info) => {
                    &&& stats.base_state == Some(info.state)
                    &&& stats.base_type == Some(info.device_type)
                    &&& stats.base_id == Some(info.id)
                },
                None => stats.base_state is None && stats.base_type is None && stats.base_id
                    is None,
            },
    {
        match base {
            Some(info) => DtxStats {
                device_mode,
                base_state: Some(info.state),
                base_type: Some(info.device_type),
                base_id: Some(info.id),
                latch_status,
            },
            None => DtxStats {
                device_mode,
                base_state: None,
                base_type: None,
                base_id: None,
                latch_status,
            },
        }
    }

    /// Whether anything was found of the detachment system.
    pub open spec fn spec_available(&self) -> bool {
        ||| self.device_mode is Some
        ||| self.base_state is Some
        ||| self.base_type is Some
        ||| self.base_id is Some
        ||| self.latch_status is Some
    }

    /// Whether anything was found of the detachment system.
    #[verifier::when_used_as_spec(spec_available)]
    pub fn available(&self) -> (found: bool)
        ensures
            found == self.spec_available(),
    {
        self.device_mode.is_some() || self.base_state.is_some() || self.base_type.is_some()
            || self.base_id.is_some() || self.latch_status.is_some()
    }
}

/// What was found of all subsystems.
#[derive(Debug, Clone, PartialEq, Eq)]
pub struct Stats {
    pub prof: ProfileStats,
    pub dgpu: DgpuStats,
    pub dtx: DtxStats,
}

impl Stats {
    /// Whether any subsystem was found.
    pub open spec fn spec_available(&self) -> bool {
        self.prof.spec_available() || self.dgpu.spec_available() || self.dtx.spec_available()
    }

    /// Whether any subsystem was found.
    #[verifier::when_used_as_spec(spec_available)]
    pub fn available(&self) -> (found: bool)
        ensures
            found == self.spec_available(),
    {
        self.prof.available() || self.dgpu.available() || self.dtx.available()
    }
}

/// One line of the overview: a heading and a value, where there is a
/// value, and nothing where there is none.
pub open spec fn line(heading: Seq<char>, value: Option<Seq<char>>) -> Seq<char> {
    match value {
        Some(text) => heading + text + "\n"@,
        None => Seq::empty(),
    }
}

/// Appends one line of the overview.
fn push_line(out: &mut String, heading: &str, value: &str)
    ensures
        final(out)@ == old(out)@ + line(heading@, Some(value@)),
{
    out.append(heading);
    out.append(value);
    out.append("\n");
    assert(out@ =~= old(out)@ + line(heading@, Some(value@)));
}

impl ProfileStats {
    /// The part of the overview on the platform profile: nothing where
    /// nothing was found, else the list of profiles and an empty line.
    pub open spec fn text(&self) -> Seq<char> {
        if self.spec_available() {
            "Platform Profile: "@ + shown_list(
                self.supported@,
                self.current@,
                self.supported@.len(),
            ) + "\n\n"@
        } else {
            Seq::empty()
        }
    }

    /// The part of the overview on the platform profile.
    pub fn render(&self) -> (text: String)
        ensures
            text@ == self.text(),
    {
        if !self.available() {
            return String::new();
        }
        String::from_str("Platform Profile: ").concat(self.profiles().as_str()).concat("\n\n")
    }
}

impl DgpuStats {
    /// The id of a vendor or a device as the overview shows it: four
    /// hexadecimal digits.
    pub open spec fn id_text(id: Option<u16>) -> Option<Seq<char>> {
        match id {
            Some(value) => Some(hex_digits(value, 4)),
            None => None,
        }
    }

    /// The part of the overview on the discrete GPU: nothing where nothing
    /// was found, else a heading, one line for each value found, and an
    /// empty line.
    pub open spec fn text(&self) -> Seq<char> {
        if self.spec_available() {
            "Discrete GPU:\n"@ + line("  Vendor:         "@, Self::id_text(self.vendor)) + line(
                "  Device:         "@,
                Self::id_text(self.device),
            ) + line(
                "  Power State:    "@,
                match self.power_state {
                    Some(state) => Some(state.name()),
                    None => None,
                },
            ) + line(
                "  Runtime PM:     "@,
                match self.runtime_pm {
                    Some(setting) => Some(setting.name()),
                    None => None,
                },
            ) + "\n"@
        } else {
            Seq::empty()
        }
    }

    /// The part of the overview on the discrete GPU.
    pub fn render(&self) -> (text: String)
        ensures
            text@ == self.text(),
    {
        if !self.available() {
            return String::new();
        }
        let mut text = String::from_str("Discrete GPU:\n");
        if let Some(vendor) = self.vendor {
            push_line(&mut text, "  Vendor:         ", hex_padded(vendor).as_str());
        }
        if let Some(device) = self.device {
            push_line(&mut text, "  Device:         ", hex_padded(device).as_str());
        }
        if let Some(power_state) = self.power_state {
            push_line(&mut text, "  Power State:    ", power_state.as_str());
        }
        if let Some(runtime_pm) = self.runtime_pm {
            push_line(&mut text, "  Runtime PM:     ", runtime_pm.as_str());
        }
        text.append("\n");
        assert(text@ =~= self.text());
        text
    }
}

impl DtxStats {
    /// The part of the overview on the detachment system: nothing where
    /// nothing was found, else a heading, one line for each value found,
    /// and an empty line.
    pub open spec fn text(&self) -> Seq<char> {
        if self.spec_available() {
            "DTX:\n"@ + line(
                "  Device Mode:    "@,
                match self.device_mode {
                    Some(mode) => Some(mode.name()),
                    None => None,
                },
            ) + line(
                "  Base State:     "@,
                match self.base_state {
                    Some(state) => Some(state.name()),
                    None => None,
                },
            ) + line(
                "  Base Type:      "@,
                match self.base_type {
                    Some(device_type) => Some(device_type.spec_text()),
                    None => None,
                },
            ) + line(
                "  Base ID:        "@,
                match self.base_id {
                    Some(id) => Some(hex_prefixed(id as u16, 2)),
                    None => None,
                },
            ) + line(
                "  Latch Status:   "@,
                match self.latch_status {
                    Some(status) => Some(status.spec_text()),
                    None => None,
                },
            ) + "\n"@
        } else {
            Seq::empty()
        }
    }

    /// The part of the overview on the detachment system.
    pub fn render(&self) -> (text: String)
        ensures
            text@ == self.text(),
    {
        if !self.available() {
            return String::new();
        }
        let mut text = String::from_str("DTX:\n");
        if let Some(device_mode) = self.device_mode {
            push_line(&mut text, "  Device Mode:    ", device_mode.as_str());
        }
        if let Some(base_state) = self.base_state {
            push_line(&mut text, "  Base State:     ", base_state.as_str());
        }
        if let Some(base_type) = self.base_type {
            push_line(&mut text, "  Base Type:      ", base_type.to_text().as_str());
        }
        if let Some(base_id) = self.base_id {
            push_line(&mut text, "  Base ID:        ", hex(base_id as u16).as_str());
        }
        if let Some(latch_status) = self.latch_status {
            push_line(&mut text, "  Latch Status:   ", latch_status.to_text().as_str());
        }
        text.append("\n");
        assert(text@ =~= self.text());
        text
    }
}

impl Stats {
    /// The overview: the parts on the platform profile, the discrete GPU
    /// and the detachment system, in this order.
    pub open spec fn text(&self) -> Seq<char> {
        self.prof.text() + self.dgpu.text() + self.dtx.text()
    }

    /// The overview.
    pub fn render(&self) -> (text: String)
        ensures
            text@ == self.text(),
    {
        self.prof.render().concat(self.dgpu.render().as_str()).concat(
            self.dtx.render().as_str(),
        )
    }
}

} // verus!
