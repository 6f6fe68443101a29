//! Labels: how the values of the protocol are named where they are handed
//! to other programs.
//!
//! A value that the protocol names is labelled with that name. Any other
//! value is labelled with its raw code, so that nothing is lost.

use vstd::prelude::*;
use crate::dtx::event;
use crate::dtx::status::{category_of, low_byte_of, HardwareError, RuntimeError};
use crate::dtx::stream::{Event, EventView};
use crate::dtx::{BaseState, DeviceType};

verus! {

/// The label of a value: a name, or a raw code.
#[derive(Debug, Clone, Copy, PartialEq, Eq)]
pub enum Label {
    Name(&'static str),
    Code(u16),
}

/// What a [`Label`] holds, as a mathematical value.
pub enum LabelView {
    Name(Seq<char>),
    Code(u16),
}

impl View for Label {
    type V = LabelView;

    open spec fn view(&self) -> LabelView {
        match self {
            Label::Name(name) => LabelView::Name(name@),
            Label::Code(code) => LabelView::Code(*code),
        }
    }
}

impl RuntimeError {
    /// The label of the error: its name, or its status code.
    pub open spec fn spec_label(self) -> LabelView {
        match self {
            RuntimeError::NotFeasible => LabelView::Name("not-feasible"@),
            RuntimeError::Timeout => LabelView::Name("timeout"@),
            RuntimeError::Unknown(_) => LabelView::Code(self.spec_code()),
        }
    }

    /// The label of the error.
    pub fn label(self) -> (label: Label)
        ensures
            label@ == self.spec_label(),
    {
        match self {
            RuntimeError::NotFeasible => Label::Name("not-feasible"),
            RuntimeError::Timeout => Label::Name("timeout"),
            RuntimeError::Unknown(_) => Label::Code(self.code()),
        }
    }
}

impl HardwareError {
    /// The label of the error: its name, or its status code.
    pub open spec fn spec_label(self) -> LabelView {
        match self {
            HardwareError::FailedToOpen => LabelView::Name("failed-to-open"@),
            HardwareError::FailedToRemainOpen => LabelView::Name("failed-to-remain-open"@),
            HardwareError::FailedToClose => LabelView::Name("failed-to-close"@),
            HardwareError::Unknown(_) => LabelView::Code(self.spec_code()),
        }
    }

    /// The label of the error.
    pub fn label(self) -> (label: Label)
        ensures
            label@ == self.spec_label(),
    {
        match self {
            HardwareError::FailedToOpen => Label::Name("failed-to-open"),
            HardwareError::FailedToRemainOpen => Label::Name("failed-to-remain-open"),
            HardwareError::FailedToClose => Label::Name("failed-to-close"),
            HardwareError::Unknown(_) => Label::Code(self.code()),
        }
    }
}

impl event::CancelReason {
    /// The label of the reason: that of its error, or the code it keeps.
    pub open spec fn spec_label(self) -> LabelView {
        match self {
            event::CancelReason::Hardware(error) => error.spec_label(),
            event::CancelReason::Runtime(error) => error.spec_label(),
            event::CancelReason::Unknown(code) => LabelView::Code(code),
        }
    }

    /// The label of the reason.
    pub fn label(self) -> (label: Label)
        ensures
            label@ == self.spec_label(),
    {
        match self {
            event::CancelReason::Hardware(error) => error.label(),
            event::CancelReason::Runtime(error) => error.label(),
            event::CancelReason::Unknown(code) => Label::Code(code),
        }
    }
}

impl BaseState {
    /// The name of the state.
    pub open spec fn spec_label(self) -> Seq<char> {
        match self {
            BaseState::Attached => "attached"@,
            BaseState::Detached => "detached"@,
            BaseState::NotFeasible => "not-feasible"@,
        }
    }

    /// The name of the state.
    pub fn label(self) -> (name: &'static str)
        ensures
            name@ == self.spec_label(),
    {
        match self {
            BaseState::Attached => "attached",
            BaseState::Detached => "detached",
            BaseState::NotFeasible => "not-feasible",
        }
    }
}

impl event::BaseState {
    /// The label of the state: its name, or the code it keeps.
    pub open spec fn spec_label(self) -> LabelView {
        match self {
            event::BaseState::Attached => LabelView::Name("attached"@),
            event::BaseState::Detached => LabelView::Name("detached"@),
            event::BaseState::NotFeasible => LabelView::Name("not-feasible"@),
            event::BaseState::Unknown(code) => LabelView::Code(code),
        }
    }

    /// The label of the state.
    pub fn label(self) -> (label: Label)
        ensures
            label@ == self.spec_label(),
    {
        match self {
            event::BaseState::Attached => Label::Name("attached"),
            event::BaseState::Detached => Label::Name("detached"),
            event::BaseState::NotFeasible => Label::Name("not-feasible"),
            event::BaseState::Unknown(code) => Label::Code(code),
        }
    }
}

impl DeviceType {
    /// The label of the type: its name, or the high byte of its base id.
    pub open spec fn spec_label(self) -> LabelView {
        match self {
            DeviceType::Hid => LabelView::Name("hid"@),
            DeviceType::Ssh => LabelView::Name("ssh"@),
            DeviceType::Unknown(byte) => LabelView::Code(byte as u16),
        }
    }

    /// The label of the type.
    pub fn label(self) -> (label: Label)
        ensures
            label@ == self.spec_label(),
    {
        match self {
            DeviceType::Hid => Label::Name("hid"),
            DeviceType::Ssh => Label::Name("ssh"),
            DeviceType::Unknown(byte) => Label::Code(byte as u16),
        }
    }
}

impl event::LatchStatus {
    /// The label of the status: its name, that of its error, or the code it
    /// keeps.
    pub open spec fn spec_label(self) -> LabelView {
        match self {
            event::LatchStatus::Closed => LabelView::Name("closed"@),
            event::LatchStatus::Opened => LabelView::Name("opened"@),
            event::LatchStatus::Error(error) => error.spec_label(),
            event::LatchStatus::Unknown(code) => LabelView::Code(code),
        }
    }

    /// The label of the status.
    pub fn label(self) -> (label: Label)
        ensures
            label@ == self.spec_label(),
    {
        match self {
            event::LatchStatus::Closed => Label::Name("closed"),
            event::LatchStatus::Opened => Label::Name("opened"),
            event::LatchStatus::Error(error) => error.label(),
            event::LatchStatus::Unknown(code) => Label::Code(code),
        }
    }
}

impl event::DeviceMode {
    /// The label of the mode: its name, or the code it keeps.
    pub open spec fn spec_label(self) -> LabelView {
        match self {
            event::DeviceMode::Tablet => LabelView::Name("tablet"@),
            event::DeviceMode::Laptop => LabelView::Name("laptop"@),
            event::DeviceMode::Studio => LabelView::Name("studio"@),
            event::DeviceMode::Unknown(code) => LabelView::Code(code),
        }
    }

    /// The label of the mode.
    pub fn label(self) -> (label: Label)
        ensures
            label@ == self.spec_label(),
    {
        match self {
            event::DeviceMode::Tablet => Label::Name("tablet"),
            event::DeviceMode::Laptop => Label::Name("laptop"),
            event::DeviceMode::Studio => Label::Name("studio"),
            event::DeviceMode::Unknown(code) => Label::Code(code),
        }
    }
}

impl EventView {
    /// The label of the kind of event: its name, or the code of a frame
    /// that was kept as it came.
    pub open spec fn kind(self) -> LabelView {
        match self {
            EventView::Request => LabelView::Name("request"@),
            EventView::Cancel { .. } => LabelView::Name("cancel"@),
            EventView::BaseConnection { .. } => LabelView::Name("base-connection"@),
            EventView::LatchStatus { .. } => LabelView::Name("latch-status"@),
            EventView::DeviceMode { .. } => LabelView::Name("device-mode"@),
            EventView::Unknown { code, .. } => LabelView::Code(code),
        }
    }
}

impl Event {
    /// The label of the kind of event.
    pub fn kind(&self) -> (label: Label)
        ensures
            label@ == self@.kind(),
    {
        match self {
            Event::Request => Label::Name("request"),
            Event::Cancel { .. } => Label::Name("cancel"),
            Event::BaseConnection { .. } => Label::Name("base-connection"),
            Event::LatchStatus { .. } => Label::Name("latch-status"),
            Event::DeviceMode { .. } => Label::Name("device-mode"),
            Event::Unknown { code, .. } => Label::Code(*code),
        }
    }
}

/// What a code label holds of the raw code that was decoded. A base state
/// and a device mode are labelled with the raw code itself. A cancel reason
/// and a latch status are labelled with a code of the same category and the
/// same low byte: of an error without a name, decoding keeps no more.
pub proof fn lemma_code_labels_keep_raw_code(value: u16)
    ensures
        event::BaseState::of_code(value).spec_label() matches LabelView::Code(code) ==> code
            == value,
        event::DeviceMode::of_code(value).spec_label() matches LabelView::Code(code) ==> code
            == value,
        event::CancelReason::of_code(value).spec_label() matches LabelView::Code(code)
            ==> category_of(code).same_kind(category_of(value)) && low_byte_of(code)
            == low_byte_of(value),
        event::LatchStatus::of_code(value).spec_label() matches LabelView::Code(code)
            ==> category_of(code).same_kind(category_of(value)) && low_byte_of(code)
            == low_byte_of(value),
{
}

} // verus!
