use surface_control::dtx::display::payload_to_text;
use surface_control::dtx::event;
use surface_control::dtx::label::Label;
use surface_control::dtx::{
    BaseState, DeviceMode, DeviceType, DtxError, Event, HardwareError, LatchStatus, RuntimeError,
};

#[test]
fn runtime_error_messages() {
    assert_eq!(RuntimeError::NotFeasible.message(), "Detachment preconditions not fulfilled");
    assert_eq!(RuntimeError::Timeout.message(), "Detach operation timed out");
    assert_eq!(RuntimeError::Unknown(0x7).message(), "Unknown runtime error: 0x07");
    assert_eq!(RuntimeError::Unknown(0xab).message(), "Unknown runtime error: 0xab");
}

#[test]
fn hardware_error_messages() {
    assert_eq!(HardwareError::FailedToOpen.message(), "Failed to open latch");
    assert_eq!(HardwareError::FailedToRemainOpen.message(), "Latch failed to remain open");
    assert_eq!(HardwareError::FailedToClose.message(), "Failed to close latch");
    assert_eq!(HardwareError::Unknown(0x99).message(), "Unknown hardware error: 0x99");
}

#[test]
fn protocol_error_messages() {
    assert_eq!(DtxError::InvalidBaseState(0x2).message(), "Invalid value for base state: 0x02");
    assert_eq!(
        DtxError::InvalidDeviceMode(0x1001).message(),
        "Invalid value for device mode: 0x1001"
    );
    assert_eq!(
        DtxError::InvalidLatchStatus(0x300).message(),
        "Invalid value for latch status: 0x300"
    );
    assert_eq!(
        DtxError::InvalidCancelReason(0xffff).message(),
        "Invalid value for cancel reason: 0xffff"
    );
    assert_eq!(DtxError::InvalidCancelReason(0xffff).code(), 0xffff);
}

#[test]
fn value_names() {
    assert_eq!(DeviceMode::Tablet.as_str(), "Tablet");
    assert_eq!(DeviceMode::Laptop.as_str(), "Laptop");
    assert_eq!(DeviceMode::Studio.as_str(), "Studio");
    assert_eq!(BaseState::Detached.as_str(), "Detached");
    assert_eq!(BaseState::Attached.as_str(), "Attached");
    assert_eq!(BaseState::NotFeasible.as_str(), "NotFeasible");
    assert_eq!(DeviceType::Hid.to_text(), "HID");
    assert_eq!(DeviceType::Ssh.to_text(), "SSH");
    assert_eq!(DeviceType::Unknown(0x3).to_text(), "0x3");
    assert_eq!(DeviceType::Unknown(0x0).to_text(), "0x0");
    assert_eq!(DeviceType::Unknown(0x0f).to_text(), format!("{:#02x}", 0x0fu8));
    assert_eq!(DeviceType::Unknown(0x13).to_text(), "0x13");
    assert_eq!(DeviceType::Unknown(0xf3).to_text(), format!("{:#02x}", 0xf3u8));
    assert_eq!(LatchStatus::Closed.to_text(), "Closed");
    assert_eq!(LatchStatus::Opened.to_text(), "Opened");
    assert_eq!(
        LatchStatus::Error(HardwareError::FailedToClose).to_text(),
        "Error: Failed to close latch"
    );
}

#[test]
fn payload_as_text() {
    assert_eq!(payload_to_text(&vec![]), "[]");
    assert_eq!(payload_to_text(&vec![0x01]), "[01]");
    assert_eq!(payload_to_text(&vec![0x01, 0xff, 0x00]), "[01, ff, 00]");
    let data = vec![0x0a, 0xb0, 0x7f];
    assert_eq!(payload_to_text(&data), format!("{:02x?}", data));
}

#[test]
fn events_on_one_line() {
    assert_eq!(Event::Request.describe(), "Request");
    assert_eq!(
        Event::Cancel { reason: event::CancelReason::Runtime(RuntimeError::Timeout) }.describe(),
        "Cancel         { Reason: \"Detach operation timed out\" }"
    );
    assert_eq!(
        Event::Cancel { reason: event::CancelReason::Hardware(HardwareError::Unknown(0x12)) }
            .describe(),
        "Cancel         { Reason: \"Unknown hardware error: 0x12\" }"
    );
    assert_eq!(
        Event::Cancel { reason: event::CancelReason::Unknown(0x3abc) }.describe(),
        "Cancel         { Reason: 0x3abc }"
    );
    assert_eq!(
        Event::BaseConnection {
            state: event::BaseState::Attached,
            device_type: DeviceType::Hid,
            id: 0x5
        }
        .describe(),
        "BaseConnection { State: Attached, DeviceType: Hid, Id: 0x05 }"
    );
    assert_eq!(
        Event::BaseConnection {
            state: event::BaseState::Unknown(0x7),
            device_type: DeviceType::Unknown(0xc),
            id: 0xff
        }
        .describe(),
        "BaseConnection { State: 0x07, DeviceType: 0x0c, Id: 0xff }"
    );
    assert_eq!(
        Event::LatchStatus { status: event::LatchStatus::Opened }.describe(),
        "LatchStatus    { Status: Opened }"
    );
    assert_eq!(
        Event::LatchStatus { status: event::LatchStatus::Error(HardwareError::FailedToOpen) }
            .describe(),
        "LatchStatus    { Status: \"Error: Failed to open latch\" }"
    );
    assert_eq!(
        Event::LatchStatus { status: event::LatchStatus::Unknown(0x1001) }.describe(),
        "LatchStatus    { Status: 0x1001 }"
    );
    assert_eq!(
        Event::DeviceMode { mode: event::DeviceMode::Studio }.describe(),
        "DeviceMode     { Status: Studio }"
    );
    assert_eq!(
        Event::DeviceMode { mode: event::DeviceMode::Unknown(0x3) }.describe(),
        "DeviceMode     { Status: 0x03 }"
    );
    assert_eq!(
        Event::Unknown { code: 0xff, data: vec![1, 2, 0xab] }.describe(),
        "Unknown        { Code: 0xff, Data: [01, 02, ab] }"
    );
    assert_eq!(
        Event::Unknown { code: 2, data: vec![] }.describe(),
        "Unknown        { Code: 0x02, Data: [] }"
    );
}

#[test]
fn labels_of_errors() {
    assert_eq!(RuntimeError::NotFeasible.label(), Label::Name("not-feasible"));
    assert_eq!(RuntimeError::Timeout.label(), Label::Name("timeout"));
    assert_eq!(RuntimeError::Unknown(0x34).label(), Label::Code(0x1034));
    assert_eq!(HardwareError::FailedToOpen.label(), Label::Name("failed-to-open"));
    assert_eq!(HardwareError::FailedToRemainOpen.label(), Label::Name("failed-to-remain-open"));
    assert_eq!(HardwareError::FailedToClose.label(), Label::Name("failed-to-close"));
    assert_eq!(HardwareError::Unknown(0x99).label(), Label::Code(0x2099));
}

#[test]
fn labels_of_event_values() {
    assert_eq!(
        event::CancelReason::Runtime(RuntimeError::Timeout).label(),
        Label::Name("timeout")
    );
    assert_eq!(
        event::CancelReason::Hardware(HardwareError::Unknown(1)).label(),
        Label::Code(0x2001)
    );
    assert_eq!(event::CancelReason::Unknown(0x4000).label(), Label::Code(0x4000));
    assert_eq!(event::BaseState::Attached.label(), Label::Name("attached"));
    assert_eq!(event::BaseState::Detached.label(), Label::Name("detached"));
    assert_eq!(event::BaseState::NotFeasible.label(), Label::Name("not-feasible"));
    assert_eq!(event::BaseState::Unknown(9).label(), Label::Code(9));
    assert_eq!(event::LatchStatus::Closed.label(), Label::Name("closed"));
    assert_eq!(event::LatchStatus::Opened.label(), Label::Name("opened"));
    assert_eq!(
        event::LatchStatus::Error(HardwareError::FailedToClose).label(),
        Label::Name("failed-to-close")
    );
    assert_eq!(event::LatchStatus::Unknown(0x1001).label(), Label::Code(0x1001));
    assert_eq!(event::DeviceMode::Tablet.label(), Label::Name("tablet"));
    assert_eq!(event::DeviceMode::Laptop.label(), Label::Name("laptop"));
    assert_eq!(event::DeviceMode::Studio.label(), Label::Name("studio"));
    assert_eq!(event::DeviceMode::Unknown(3).label(), Label::Code(3));
    assert_eq!(DeviceType::Hid.label(), Label::Name("hid"));
    assert_eq!(DeviceType::Ssh.label(), Label::Name("ssh"));
    assert_eq!(DeviceType::Unknown(0xc).label(), Label::Code(0xc));
    assert_eq!(DeviceType::Unknown(0x13).label(), Label::Code(0x13));
    assert_eq!(BaseState::Attached.label(), "attached");
    assert_eq!(BaseState::Detached.label(), "detached");
    assert_eq!(BaseState::NotFeasible.label(), "not-feasible");
}

#[test]
fn labels_of_event_kinds() {
    assert_eq!(Event::Request.kind(), Label::Name("request"));
    assert_eq!(
        Event::Cancel { reason: event::CancelReason::Unknown(0) }.kind(),
        Label::Name("cancel")
    );
    assert_eq!(
        Event::BaseConnection {
            state: event::BaseState::Attached,
            device_type: DeviceType::Hid,
            id: 1
        }
        .kind(),
        Label::Name("base-connection")
    );
    assert_eq!(
        Event::LatchStatus { status: event::LatchStatus::Closed }.kind(),
        Label::Name("latch-status")
    );
    assert_eq!(
        Event::DeviceMode { mode: event::DeviceMode::Tablet }.kind(),
        Label::Name("device-mode")
    );
    assert_eq!(Event::Unknown { code: 0xff, data: vec![] }.kind(), Label::Code(0xff));
}

#[test]
fn code_labels_keep_category_and_low_byte() {
    for raw in 0..=u16::MAX {
        if let Label::Code(code) = event::LatchStatus::from(raw).label() {
            assert_eq!(code & 0xf0ff, raw & 0xf0ff);
        }
        if let Label::Code(code) = event::CancelReason::from(raw).label() {
            assert_eq!(code & 0xf0ff, raw & 0xf0ff);
        }
        if let Label::Code(code) = event::BaseState::from(raw).label() {
            assert_eq!(code, raw);
        }
        if let Label::Code(code) = event::DeviceMode::from(raw).label() {
            assert_eq!(code, raw);
        }
    }
}
