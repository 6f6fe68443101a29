use std::str::FromStr;

use surface_control::dgpu;
use surface_control::error::ErrorKind;
use surface_control::latch::OpMode;
use surface_control::perf;
use surface_control::text;

#[test]
fn perf_mode_from_str() {
    assert_eq!(perf::Mode::from_str("1"), Some(perf::Mode::Normal));
    assert_eq!(perf::Mode::from_str("2"), Some(perf::Mode::Battery));
    assert_eq!(perf::Mode::from_str("3"), Some(perf::Mode::Perf1));
    assert_eq!(perf::Mode::from_str("4"), Some(perf::Mode::Perf2));
    assert_eq!(perf::Mode::from_str("0"), None);
    assert_eq!(perf::Mode::from_str("5"), None);
    assert_eq!(perf::Mode::from_str(""), None);
    assert_eq!(perf::Mode::from_str("1 "), None);
    assert_eq!(perf::Mode::from_str("Normal"), None);
}

#[test]
fn perf_mode_names() {
    assert_eq!(perf::Mode::Normal.short_str(), "1");
    assert_eq!(perf::Mode::Battery.short_str(), "2");
    assert_eq!(perf::Mode::Perf1.short_str(), "3");
    assert_eq!(perf::Mode::Perf2.short_str(), "4");
    assert_eq!(perf::Mode::Perf2.as_str(), "4");
    assert_eq!(perf::Mode::Normal.long_str(), "Normal");
    assert_eq!(perf::Mode::Battery.long_str(), "Battery-Saver");
    assert_eq!(perf::Mode::Perf1.long_str(), "Better Performance");
    assert_eq!(perf::Mode::Perf2.long_str(), "Best Performance");
}

#[test]
fn perf_mode_round_trip() {
    for mode in [perf::Mode::Normal, perf::Mode::Battery, perf::Mode::Perf1, perf::Mode::Perf2] {
        assert_eq!(perf::Mode::from_str(mode.short_str()), Some(mode));
        assert_eq!(perf::Mode::from_str(mode.as_str()), Some(mode));
    }
}

#[test]
fn perf_mode_from_str_trait() {
    assert_eq!(<perf::Mode as FromStr>::from_str("3"), Ok(perf::Mode::Perf1));
    assert_eq!(<perf::Mode as FromStr>::from_str("x"), Err(perf::InvalidPerformanceModeError));
    assert_eq!("2".parse::<perf::Mode>(), Ok(perf::Mode::Battery));
}

#[test]
fn perf_mode_from_attribute_trims() {
    assert_eq!(perf::Mode::from_attribute("1\n"), Ok(perf::Mode::Normal));
    assert_eq!(perf::Mode::from_attribute(" 4 "), Ok(perf::Mode::Perf2));
    assert_eq!(perf::Mode::from_attribute("\n"), Err(ErrorKind::InvalidData));
    assert_eq!(perf::Mode::from_attribute("1 2"), Err(ErrorKind::InvalidData));
}

#[test]
fn dgpu_power_state_from_str() {
    assert_eq!(dgpu::PowerState::from_str("0"), Some(dgpu::PowerState::Off));
    assert_eq!(dgpu::PowerState::from_str("off"), Some(dgpu::PowerState::Off));
    assert_eq!(dgpu::PowerState::from_str("1"), Some(dgpu::PowerState::On));
    assert_eq!(dgpu::PowerState::from_str("on"), Some(dgpu::PowerState::On));
    assert_eq!(dgpu::PowerState::from_str("On"), None);
    assert_eq!(dgpu::PowerState::from_str("2"), None);
    assert_eq!(dgpu::PowerState::from_str(""), None);
}

#[test]
fn dgpu_power_state_as_str() {
    assert_eq!(dgpu::PowerState::Off.as_str(), "off");
    assert_eq!(dgpu::PowerState::On.as_str(), "on");
    for state in [dgpu::PowerState::On, dgpu::PowerState::Off] {
        assert_eq!(dgpu::PowerState::from_str(state.as_str()), Some(state));
    }
}

#[test]
fn dgpu_power_state_from_str_trait() {
    assert_eq!("on".parse::<dgpu::PowerState>(), Ok(dgpu::PowerState::On));
    assert_eq!("bad".parse::<dgpu::PowerState>(), Err(dgpu::InvalidPowerStateError));
}

#[test]
fn dgpu_power_state_from_attribute() {
    assert_eq!(dgpu::PowerState::from_attribute("on\n"), Ok(dgpu::PowerState::On));
    assert_eq!(dgpu::PowerState::from_attribute("0\n"), Ok(dgpu::PowerState::Off));
    assert_eq!(dgpu::PowerState::from_attribute("maybe"), Err(ErrorKind::InvalidData));
}

#[test]
fn op_mode_names_and_raw_values() {
    assert_eq!(OpMode::Tablet.as_str(), "Tablet");
    assert_eq!(OpMode::Laptop.as_str(), "Laptop");
    assert_eq!(OpMode::Studio.as_str(), "Studio");
    assert_eq!(OpMode::from_raw(0), Ok(OpMode::Tablet));
    assert_eq!(OpMode::from_raw(1), Ok(OpMode::Laptop));
    assert_eq!(OpMode::from_raw(2), Ok(OpMode::Studio));
    assert_eq!(OpMode::from_raw(3), Err(ErrorKind::InvalidData));
    assert_eq!(OpMode::from_raw(u32::MAX), Err(ErrorKind::InvalidData));
}

#[test]
fn c_string_content_of_a_read() {
    assert_eq!(text::c_string_content(&[b'1', b'\n', 0, 0], 2), Some(&b"1\n"[..]));
    assert_eq!(text::c_string_content(&[0, 0, 0, 0], 0), Some(&b""[..]));
    assert_eq!(text::c_string_content(&[b'o', b'n', b'\n', 0, 0], 3), Some(&b"on\n"[..]));
}

#[test]
fn c_string_content_rejects_missing_or_inner_zero() {
    assert_eq!(text::c_string_content(&[b'1', b'2', b'3', b'4'], 4), None);
    assert_eq!(text::c_string_content(&[b'1', b'2', b'3', b'4'], 3), None);
    assert_eq!(text::c_string_content(&[b'1', 0, b'3', 0], 3), None);
    assert_eq!(text::c_string_content(&[b'1', b'2', b'3', 0], 7), Some(&b"123"[..]));
    assert_eq!(text::c_string_content(&[], 0), None);
}
