use surface_control::dtx::{BaseInfo, BaseState, DeviceMode, DeviceType, HardwareError, LatchStatus};
use surface_control::error::ErrorKind;
use surface_control::pci;
use surface_control::profile;
use surface_control::stats::{DgpuStats, DtxStats, ProfileStats, Stats};
use surface_control::text;

fn strings(words: &[&str]) -> Vec<String> {
    words.iter().map(|word| word.to_string()).collect()
}

#[test]
fn hex_has_at_least_two_digits() {
    assert_eq!(text::hex(0x0), "0x00");
    assert_eq!(text::hex(0x5), "0x05");
    assert_eq!(text::hex(0xab), "0xab");
    assert_eq!(text::hex(0x100), "0x100");
    assert_eq!(text::hex(0x1001), "0x1001");
    assert_eq!(text::hex(0xffff), "0xffff");
}

#[test]
fn hex_agrees_with_the_formatter() {
    for value in (0..=u16::MAX).step_by(7) {
        assert_eq!(text::hex(value), format!("{:#04x}", value));
        assert_eq!(text::hex_padded(value), format!("{:04x}", value));
    }
    assert_eq!(text::hex_padded(0), "0000");
    assert_eq!(text::hex_padded(0x1c), "001c");
    assert_eq!(text::hex_padded(0xabcd), "abcd");
}

#[test]
fn whitespace_is_the_white_space_property() {
    for c in '\0'..=char::MAX {
        assert_eq!(text::is_whitespace(c), c.is_whitespace(), "{:?}", c);
    }
    for c in [' ', '\t', '\n', '\x0b', '\x0c', '\r', '\u{85}', '\u{a0}', '\u{3000}'] {
        assert!(text::is_whitespace(c));
    }
    for c in ['1', 'a', '\0', '\u{8}', '\u{e}', '\u{200b}', '\u{180e}', '\u{feff}'] {
        assert!(!text::is_whitespace(c));
    }
}

#[test]
fn trim_removes_whitespace_at_both_ends() {
    assert_eq!(text::trim("1\n"), "1");
    assert_eq!(text::trim("  a b  "), "a b");
    assert_eq!(text::trim(""), "");
    assert_eq!(text::trim(" \t\r\n"), "");
    assert_eq!(text::trim("plain"), "plain");
    assert_eq!(text::trim("\u{2003}wide\u{3000}"), "wide");
    assert_eq!(text::trim("\u{200b}kept\u{200b}"), "\u{200b}kept\u{200b}");
}

#[test]
fn trim_agrees_with_the_standard_trim() {
    let samples = [
        "", " ", "a", " a", "a ", " a ", "\n\ta b\r\n", "\u{a0}x\u{a0}", "\u{e9}t\u{e9} ",
        "  \u{1680}\u{2028}y\u{2029}\u{202f}\u{205f}", "\u{85}z\u{85}", "\x0b\x0cw\x0c\x0b",
        "a\u{3000}b", " \u{1f600} ",
    ];
    for sample in samples {
        assert_eq!(text::trim(sample), sample.trim(), "{:?}", sample);
    }
}

#[test]
fn trimmed_text_is_what_trim_gives() {
    assert_eq!(profile::current("balanced\n"), "balanced");
    assert_eq!(profile::current("  low-power \t"), "low-power");
    assert_eq!(profile::current("\u{a0}performance\u{a0}"), "performance");
    assert_eq!(profile::current(""), "");
}

#[test]
fn supported_profiles_are_the_words() {
    assert_eq!(
        profile::supported("low-power balanced performance\n"),
        strings(&["low-power", "balanced", "performance"])
    );
    assert_eq!(profile::supported(""), strings(&[]));
    assert_eq!(profile::supported(" \n\t "), strings(&[]));
    assert_eq!(profile::supported("one"), strings(&["one"]));
    assert_eq!(profile::supported("\tone\r\ntwo\x0cthree  "), strings(&["one", "two", "three"]));
    assert_eq!(profile::supported("a\u{e9}b c"), strings(&["a\u{e9}b", "c"]));
}

#[test]
fn supported_agrees_with_split_ascii_whitespace() {
    for text in ["", " ", "a", " a", "a ", "a b", "a  b", "\na\tb\r", "a\x0bb c", "\u{a0}a\u{a0} b"] {
        let expected: Vec<String> =
            text.split_ascii_whitespace().map(|word| word.trim().to_owned()).collect();
        assert_eq!(profile::supported(text), expected, "{:?}", text);
    }
}

#[test]
fn profile_requests() {
    let supported = strings(&["low-power", "balanced", "performance"]);
    assert!(profile::is_supported(&supported, "balanced"));
    assert!(!profile::is_supported(&supported, "turbo"));
    assert!(!profile::is_supported(&strings(&[]), "balanced"));
    assert!(profile::is_supported(&supported, "low-power"));
    assert!(!profile::is_supported(&supported, "balanced "));
}

#[test]
fn profile_stats_mark_the_current_profile() {
    let stats = ProfileStats {
        current: "balanced".to_string(),
        supported: strings(&["low-power", "balanced", "performance"]),
    };
    assert!(stats.available());
    assert_eq!(stats.profiles(), "low-power [balanced] performance");
    assert_eq!(stats.render(), "Platform Profile: low-power [balanced] performance\n\n");

    let first = ProfileStats { current: "a".to_string(), supported: strings(&["a", "b", "a"]) };
    assert_eq!(first.profiles(), "[a] b [a]");

    let none = ProfileStats { current: "x".to_string(), supported: strings(&["a"]) };
    assert_eq!(none.profiles(), "a");
}

#[test]
fn profile_stats_without_answers() {
    let stats = ProfileStats::load(None, None);
    assert_eq!(stats, ProfileStats { current: String::new(), supported: Vec::new() });
    assert!(!stats.available());
    assert_eq!(stats.render(), "");
    let half = ProfileStats::load(Some("balanced".to_string()), None);
    assert!(!half.available());
    let other = ProfileStats::load(None, Some(strings(&["balanced"])));
    assert!(!other.available());
    assert_eq!(other.render(), "");
    let both = ProfileStats::load(Some("balanced".to_string()), Some(strings(&["balanced"])));
    assert!(both.available());
}

fn no_dgpu() -> DgpuStats {
    DgpuStats { vendor: None, device: None, power_state: None, runtime_pm: None }
}

fn no_dtx() -> DtxStats {
    DtxStats::load(None, None, None)
}

#[test]
fn dgpu_stats_render_what_was_found() {
    assert!(!no_dgpu().available());
    assert_eq!(no_dgpu().render(), "");
    let stats = DgpuStats {
        vendor: Some(0x10de),
        device: Some(0x01c),
        power_state: Some(pci::PowerState::D3cold),
        runtime_pm: Some(pci::RuntimePowerManagement::On),
    };
    assert!(stats.available());
    assert_eq!(
        stats.render(),
        "Discrete GPU:\n  Vendor:         10de\n  Device:         001c\n  Power State:    D3cold\n  Runtime PM:     On\n\n"
    );
    let partial = DgpuStats { device: Some(0xabcd), ..no_dgpu() };
    assert!(partial.available());
    assert_eq!(partial.render(), "Discrete GPU:\n  Device:         abcd\n\n");
}

#[test]
fn dtx_stats_render_what_was_found() {
    assert!(!no_dtx().available());
    assert_eq!(no_dtx().render(), "");
    let base = BaseInfo { state: BaseState::Attached, device_type: DeviceType::Ssh, id: 0x5 };
    let stats = DtxStats::load(
        Some(base),
        Some(DeviceMode::Laptop),
        Some(LatchStatus::Error(HardwareError::Unknown(0x9))),
    );
    assert_eq!(stats.base_state, Some(BaseState::Attached));
    assert_eq!(stats.base_type, Some(DeviceType::Ssh));
    assert_eq!(stats.base_id, Some(0x5));
    assert!(stats.available());
    assert_eq!(
        stats.render(),
        "DTX:\n  Device Mode:    Laptop\n  Base State:     Attached\n  Base Type:      SSH\n  Base ID:        0x05\n  Latch Status:   Error: Unknown hardware error: 0x09\n\n"
    );
    let mode_only = DtxStats::load(None, Some(DeviceMode::Tablet), None);
    assert!(mode_only.available());
    assert_eq!(mode_only.render(), "DTX:\n  Device Mode:    Tablet\n\n");
}

#[test]
fn overview_is_the_three_parts_in_order() {
    let nothing = Stats { prof: ProfileStats::load(None, None), dgpu: no_dgpu(), dtx: no_dtx() };
    assert!(!nothing.available());
    assert_eq!(nothing.render(), "");
    let stats = Stats {
        prof: ProfileStats { current: "b".to_string(), supported: strings(&["a", "b"]) },
        dgpu: DgpuStats { vendor: Some(0x10de), ..no_dgpu() },
        dtx: DtxStats::load(None, None, Some(LatchStatus::Closed)),
    };
    assert!(stats.available());
    assert_eq!(
        stats.render(),
        "Platform Profile: a [b]\n\nDiscrete GPU:\n  Vendor:         10de\n\nDTX:\n  Latch Status:   Closed\n\n"
    );
    let dtx_only = Stats {
        prof: ProfileStats::load(None, None),
        dgpu: no_dgpu(),
        dtx: DtxStats::load(None, Some(DeviceMode::Studio), None),
    };
    assert!(dtx_only.available());
}

#[test]
fn error_kind_messages() {
    assert_eq!(ErrorKind::Io.as_str(), "I/O failure");
    assert_eq!(ErrorKind::InvalidData.as_str(), "Received invalid data");
    assert_eq!(ErrorKind::DeviceAccess.as_str(), "Cannot access device");
}
