use surface_control::pci;
use surface_control::pci::{
    Class, InvalidRuntimePmError, PowerState, RuntimePowerManagement, SysFsError,
};

#[test]
fn vendor_id_in_hexadecimal() {
    assert_eq!(pci::vendor_id(Some("0x10de")), Ok(0x10de));
    assert_eq!(pci::vendor_id(Some("10de")), Ok(0x10de));
    assert_eq!(pci::vendor_id(Some("0x8086")), Ok(0x8086));
    assert_eq!(pci::vendor_id(Some("0xFFFF")), Ok(0xffff));
    assert_eq!(pci::vendor_id(Some("0x0")), Ok(0));
    assert_eq!(pci::vendor_id(Some("0x0x1f")), Ok(0x1f));
    assert_eq!(pci::vendor_id(Some("+1f")), Ok(0x1f));
    assert_eq!(pci::vendor_id(Some("0x000000010de")), Ok(0x10de));
}

#[test]
fn vendor_id_missing() {
    assert_eq!(pci::vendor_id(None), Err(SysFsError::MissingAttribute { attribute: "vendor" }));
    assert_eq!(pci::device_id(None), Err(SysFsError::MissingAttribute { attribute: "device" }));
    assert_eq!(pci::class(None), Err(SysFsError::MissingAttribute { attribute: "class" }));
}

#[test]
fn vendor_id_invalid() {
    let invalid = |value: &str| {
        Err(SysFsError::InvalidAttributeValue { attribute: "vendor", value: value.to_string() })
    };
    assert_eq!(pci::vendor_id(Some("0x10000")), invalid("10000"));
    assert_eq!(pci::vendor_id(Some("0x")), invalid(""));
    assert_eq!(pci::vendor_id(Some("")), invalid(""));
    assert_eq!(pci::vendor_id(Some("0x10de\n")), invalid("10de\n"));
    assert_eq!(pci::vendor_id(Some("10dg")), invalid("10dg"));
    assert_eq!(pci::vendor_id(Some("-1")), invalid("-1"));
    assert_eq!(pci::vendor_id(Some("+")), invalid("+"));
    assert_eq!(pci::vendor_id(Some("++1")), invalid("++1"));
    assert_eq!(pci::vendor_id(Some("0x1\u{e9}")), invalid("1\u{e9}"));
    assert_eq!(pci::vendor_id(Some("x10")), invalid("x10"));
}

#[test]
fn device_id_names_its_attribute() {
    assert_eq!(pci::device_id(Some("0x1c8d")), Ok(0x1c8d));
    assert_eq!(
        pci::device_id(Some("zz")),
        Err(SysFsError::InvalidAttributeValue { attribute: "device", value: "zz".to_string() })
    );
}

#[test]
fn parse_hex_agrees_with_from_str_radix() {
    let samples = [
        "", "0", "f", "F", "10", "ffff", "10000", "+0", "+ffff", "-0", "0x10", " 1", "1 ", "1_0",
        "00000000000000000001", "fffffffff", "g", "+", "++", "+-1", "aBcD", "\u{ff11}",
    ];
    for text in samples {
        assert_eq!(
            pci::parse_hex(text, 0xffff),
            u16::from_str_radix(text, 16).ok().map(u32::from),
            "{:?}",
            text
        );
        assert_eq!(pci::parse_hex(text, u32::MAX), u32::from_str_radix(text, 16).ok(), "{:?}", text);
    }
}

#[test]
fn strip_hex_prefix_agrees_with_trim_start_matches() {
    for text in ["", "0", "0x", "0x0x", "0x10de", "x0x1", "00x1", "0X1", "0x0x0x7", "\u{e9}0x"] {
        assert_eq!(pci::strip_hex_prefix(text), text.trim_start_matches("0x"), "{:?}", text);
    }
}

#[test]
fn class_unpacks_three_bytes() {
    assert_eq!(pci::class(Some("0x030200")), Ok(Class { base: 0x03, sub: 0x02, iface: 0x00 }));
    assert_eq!(Class::from_code(0x030200), Class { base: 0x03, sub: 0x02, iface: 0x00 });
    assert_eq!(Class::from_code(0xff123456), Class { base: 0x12, sub: 0x34, iface: 0x56 });
    assert_eq!(
        pci::class(Some("0x100000000")),
        Err(SysFsError::InvalidAttributeValue { attribute: "class", value: "100000000".to_string() })
    );
}

#[test]
fn discrete_gpu_is_an_nvidia_display_controller() {
    let display = Class { base: 0x03, sub: 0x02, iface: 0x00 };
    let bridge = Class { base: 0x06, sub: 0x04, iface: 0x00 };
    assert!(pci::is_discrete_gpu(0x10de, display));
    assert!(!pci::is_discrete_gpu(0x8086, display));
    assert!(!pci::is_discrete_gpu(0x10de, bridge));
    assert_eq!(pci::VENDOR_ID_NVIDIA, 0x10de);
    assert_eq!(pci::BASE_CLASS_DISPLAY, 0x03);
}

#[test]
fn pci_power_state_from_sysfs() {
    assert_eq!(PowerState::from_sysfs("unknown"), Ok(PowerState::Unknown));
    assert_eq!(PowerState::from_sysfs("error"), Ok(PowerState::Error));
    assert_eq!(PowerState::from_sysfs("D0"), Ok(PowerState::D0));
    assert_eq!(PowerState::from_sysfs("D1"), Ok(PowerState::D1));
    assert_eq!(PowerState::from_sysfs("D2"), Ok(PowerState::D2));
    assert_eq!(PowerState::from_sysfs("D3hot"), Ok(PowerState::D3hot));
    assert_eq!(PowerState::from_sysfs("D3cold"), Ok(PowerState::D3cold));
    assert_eq!(
        PowerState::from_sysfs("d0"),
        Err(SysFsError::InvalidAttributeValue {
            attribute: "power_state",
            value: "d0".to_string()
        })
    );
    assert_eq!(pci::get_power_state(Some("D3cold")), Ok(PowerState::D3cold));
    assert_eq!(
        pci::get_power_state(None),
        Err(SysFsError::MissingAttribute { attribute: "power_state" })
    );
}

#[test]
fn pci_power_state_names() {
    assert_eq!(PowerState::Unknown.as_str(), "Unknown");
    assert_eq!(PowerState::Error.as_str(), "Error");
    assert_eq!(PowerState::D0.as_str(), "D0");
    assert_eq!(PowerState::D1.as_str(), "D1");
    assert_eq!(PowerState::D2.as_str(), "D2");
    assert_eq!(PowerState::D3hot.as_str(), "D3hot");
    assert_eq!(PowerState::D3cold.as_str(), "D3cold");
}

#[test]
fn runtime_pm_sysfs_values() {
    assert_eq!(RuntimePowerManagement::from_sysfs("auto"), Ok(RuntimePowerManagement::On));
    assert_eq!(RuntimePowerManagement::from_sysfs("on"), Ok(RuntimePowerManagement::Off));
    assert_eq!(
        RuntimePowerManagement::from_sysfs("off"),
        Err(SysFsError::InvalidAttributeValue {
            attribute: "power/control",
            value: "off".to_string()
        })
    );
    assert_eq!(RuntimePowerManagement::On.as_sysfs(), "auto");
    assert_eq!(RuntimePowerManagement::Off.as_sysfs(), "on");
    for setting in [RuntimePowerManagement::On, RuntimePowerManagement::Off] {
        assert_eq!(RuntimePowerManagement::from_sysfs(setting.as_sysfs()), Ok(setting));
    }
    assert_eq!(pci::get_runtime_pm(Some("auto")), Ok(RuntimePowerManagement::On));
    assert_eq!(
        pci::get_runtime_pm(None),
        Err(SysFsError::MissingAttribute { attribute: "power/control" })
    );
}

#[test]
fn runtime_pm_from_words() {
    for word in ["on", "On", "ON"] {
        assert_eq!(word.parse::<RuntimePowerManagement>(), Ok(RuntimePowerManagement::On));
        assert_eq!(RuntimePowerManagement::parse_word(word), Ok(RuntimePowerManagement::On));
    }
    for word in ["off", "Off", "OFF"] {
        assert_eq!(word.parse::<RuntimePowerManagement>(), Ok(RuntimePowerManagement::Off));
    }
    assert_eq!("oN".parse::<RuntimePowerManagement>(), Err(InvalidRuntimePmError));
    assert_eq!("auto".parse::<RuntimePowerManagement>(), Err(InvalidRuntimePmError));
    assert_eq!(RuntimePowerManagement::On.as_str(), "On");
    assert_eq!(RuntimePowerManagement::Off.as_str(), "Off");
}

#[test]
fn only_the_pci_subsystem_is_accepted() {
    assert_eq!(pci::check_subsystem(Some("pci")), Ok(()));
    assert_eq!(
        pci::check_subsystem(Some("usb")),
        Err(SysFsError::InvalidAttributeValue { attribute: "pci", value: "usb".to_string() })
    );
    assert_eq!(
        pci::check_subsystem(None),
        Err(SysFsError::InvalidAttributeValue { attribute: "pci", value: String::new() })
    );
}
