//! What the attribute files of a PCI device hold: ids, class, power state
//! and runtime power management.
//!
//! The functions here take the text of an attribute, or `None` where the
//! device has no such attribute, and return the value it stands for.

use vstd::prelude::*;
use vstd::string::StrSliceExecFns;
use crate::text::str_eq;

verus! {

broadcast use vstd::string::is_ascii_spec_bytes;

/// The vendor id of NVIDIA.
pub const VENDOR_ID_NVIDIA: u16 = 0x10de;

/// The base class of display controllers.
pub const BASE_CLASS_DISPLAY: u8 = 0x03;

/// An attribute that is missing or holds a value that cannot be understood.
#[derive(Debug, Clone, PartialEq, Eq)]
pub enum SysFsError {
    MissingAttribute { attribute: &'static str },
    InvalidAttributeValue { attribute: &'static str, value: String },
}

/// The result of reading an attribute.
pub type SysFsResult<T> = Result<T, SysFsError>;

/// The class of a PCI device.
#[derive(Debug, Clone, Copy, PartialEq, Eq, Structural)]
pub struct Class {
    pub base: u8,
    pub sub: u8,
    pub iface: u8,
}

impl Class {
    /// The class that a 24-bit class code packs: base class, sub class and
    /// interface, one byte each from the top.
    pub open spec fn of_code(code: u32) -> Class {
        Class {
            base: ((code as int / 0x10000) % 0x100) as u8,
            sub: ((code as int / 0x100) % 0x100) as u8,
            iface: (code as int % 0x100) as u8,
        }
    }

    /// Unpacks a class code.
    pub fn from_code(code: u32) -> (class: Class)
        ensures
            class == Class::of_code(code),
    {
        Class {
            base: ((code / 0x10000) % 0x100) as u8,
            sub: ((code / 0x100) % 0x100) as u8,
            iface: (code % 0x100) as u8,
        }
    }
}

/// Accepts a device of the subsystem `pci` and no other: a device of
/// another subsystem, or of none, is reported under the name `pci` with
/// the subsystem it has.
pub fn check_subsystem(subsystem: Option<&str>) -> (checked: SysFsResult<()>)
    ensures
        match subsystem {
            Some(name) if name@ == "pci"@ => checked is Ok,
            Some(name) => checked matches Err(
                SysFsError::InvalidAttributeValue { attribute, value },
            ) && attribute == "pci" && value@ == name@,
            None => checked matches Err(SysFsError::InvalidAttributeValue { attribute, value })
                && attribute == "pci" && value@ == Seq::<char>::empty(),
        },
{
    match subsystem {
        Some(name) => {
            if str_eq(name, "pci") {
                Ok(())
            } else {
                Err(SysFsError::InvalidAttributeValue { attribute: "pci", value: name.to_owned() })
            }
        },
        None => Err(SysFsError::InvalidAttributeValue { attribute: "pci", value: String::new() }),
    }
}

/// Whether a device with this vendor and class is the discrete GPU: a
/// display controller made by NVIDIA.
pub fn is_discrete_gpu(vendor_id: u16, class: Class) -> (found: bool)
    ensures
        found == (vendor_id == VENDOR_ID_NVIDIA && class.base == BASE_CLASS_DISPLAY),
{
    vendor_id == VENDOR_ID_NVIDIA && class.base == BASE_CLASS_DISPLAY
}

/// The value of a hexadecimal digit, in either case.
pub open spec fn hex_digit(c: char) -> Option<nat> {
    if '0' <= c <= '9' {
        Some((c as int - '0' as int) as nat)
    } else if 'a' <= c <= 'f' {
        Some((c as int - 'a' as int + 10) as nat)
    } else if 'A' <= c <= 'F' {
        Some((c as int - 'A' as int + 10) as nat)
    } else {
        None
    }
}

/// Whether every character is a hexadecimal digit.
pub open spec fn all_hex(digits: Seq<char>) -> bool {
    forall|i: int| 0 <= i < digits.len() ==> (#[trigger] hex_digit(digits[i])) is Some
}

/// The number that a sequence of hexadecimal digits spells, the first digit
/// weighing most.
pub open spec fn hex_value(digits: Seq<char>) -> nat
    decreases digits.len(),
{
    if digits.len() == 0 {
        0
    } else {
        16 * hex_value(digits.drop_last()) + match hex_digit(digits.last()) {
            Some(value) => value,
            None => 0,
        }
    }
}

/// The number that a text spells in base 16, where it spells one that is at
/// most `max`: an optional plus sign in front of at least one digit, and
/// nothing else.
pub open spec fn hex_number(text: Seq<char>, max: nat) -> Option<nat> {
    let digits = if text.len() > 1 && text[0] == '+' {
        text.drop_first()
    } else {
        text
    };
    if digits.len() > 0 && all_hex(digits) && hex_value(digits) <= max {
        Some(hex_value(digits))
    } else {
        None
    }
}

/// A text without the `0x` in front of it, however often it is repeated.
pub open spec fn without_hex_prefix(text: Seq<char>) -> Seq<char>
    decreases text.len(),
{
    if text.len() >= 2 && text[0] == '0' && text[1] == 'x' {
        without_hex_prefix(text.subrange(2, text.len() as int))
    } else {
        text
    }
}

/// The value of a sequence of digits is at least that of each of its
/// beginnings.
proof fn lemma_hex_value_grows(digits: Seq<char>, k: int)
    requires
        0 <= k <= digits.len(),
    ensures
        hex_value(digits.subrange(0, k)) <= hex_value(digits),
    decreases digits.len() - k,
{
    if k == digits.len() {
        assert(digits.subrange(0, k) =~= digits);
    } else {
        lemma_hex_value_grows(digits, k + 1);
        assert(digits.subrange(0, k + 1).drop_last() =~= digits.subrange(0, k));
    }
}

/// A text without the `0x` in front of it, however often it is repeated.
pub fn strip_hex_prefix(text: &str) -> (rest: &str)
    ensures
        rest@ == without_hex_prefix(text@),
{
    let len = text.unicode_len();
    let mut i: usize = 0;
    proof {
        assert(text@.skip(0) =~= text@);
    }
    while len - i >= 2 && text.get_char(i) == '0' && text.get_char(i + 1) == 'x'
        invariant
            i <= len,
            len == text@.len(),
            without_hex_prefix(text@) == without_hex_prefix(text@.skip(i as int)),
        decreases len - i,
    {
        proof {
            let rest = text@.skip(i as int);
            assert(rest[0] == text@[i as int]);
            assert(rest[1] == text@[i + 1]);
            assert(rest.subrange(2, rest.len() as int) =~= text@.skip(i + 2));
        }
        i += 2;
    }
    proof {
        let rest = text@.skip(i as int);
        if rest.len() >= 2 {
            assert(rest[0] == text@[i as int]);
            assert(rest[1] == text@[i + 1]);
        }
        assert(text@.subrange(i as int, len as int) =~= rest);
    }
    text.substring_char(i, len)
}

/// The value of the byte of a hexadecimal digit.
fn hex_digit_of_byte(byte: u8) -> (value: Option<u8>)
    requires
        byte < 0x80,
    ensures
        match hex_digit(byte as char) {
            Some(digit) => value == Some(digit as u8) && digit < 16,
            None => value is None,
        },
{
    if byte >= 0x30 && byte <= 0x39 {
        Some(byte - 0x30)
    } else if byte >= 0x61 && byte <= 0x66 {
        Some(byte - 0x61 + 10)
    } else if byte >= 0x41 && byte <= 0x46 {
        Some(byte - 0x41 + 10)
    } else {
        None
    }
}

/// Parses a number in base 16 that is at most `max`.
pub fn parse_hex(text: &str, max: u32) -> (number: Option<u32>)
    ensures
        match hex_number(text@, max as nat) {
            Some(value) => number == Some(value as u32),
            None => number is None,
        },
{
    if !text.is_ascii() {
        proof {
            let digits = if text@.len() > 1 && text@[0] == '+' {
                text@.drop_first()
            } else {
                text@
            };
            if all_hex(digits) {
                assert forall|i: int| 0 <= i < text@.len() implies '\0' <= #[trigger] text@[i]
                    <= '\u{7f}' by {
                    if text@.len() > 1 && text@[0] == '+' {
                        if i > 0 {
                            assert(hex_digit(digits[i - 1]) is Some);
                        }
                    } else {
                        assert(hex_digit(digits[i]) is Some);
                    }
                }
            }
        }
        return None;
    }
    let bytes = text.as_bytes();
    let len = bytes.len();
    assert(len == text@.len());
    assert(forall|i: int| 0 <= i < len ==> bytes@[i] == text@[i] as u8);
    let start: usize = if len > 1 && bytes[0] == 0x2b {
        1
    } else {
        0
    };
    let ghost digits = if text@.len() > 1 && text@[0] == '+' {
        text@.drop_first()
    } else {
        text@
    };
    assert(len > 0 ==> (bytes@[0] == 0x2b <==> text@[0] == '+')) by {
        if len > 0 {
            assert('\0' <= text@[0] <= '\u{7f}');
            assert(bytes@[0] == text@[0] as u8);
        }
    }
    assert(digits =~= text@.subrange(start as int, len as int));
    if start == len {
        return None;
    }
    let mut value: u64 = 0;
    let mut i: usize = start;
    while i < len
        invariant
            start <= i <= len,
            len == text@.len(),
            text.is_ascii(),
            bytes@.len() == len,
            forall|j: int| 0 <= j < len ==> bytes@[j] == text@[j] as u8,
            digits == text@.subrange(start as int, len as int),
            digits == (if text@.len() > 1 && text@[0] == '+' {
                text@.drop_first()
            } else {
                text@
            }),
            all_hex(digits.subrange(0, i - start)),
            value == hex_value(digits.subrange(0, i - start)),
            value <= max,
        decreases len - i,
    {
        let byte = bytes[i];
        assert('\0' <= text@[i as int] <= '\u{7f}');
        assert(byte as char == text@[i as int]);
        assert(digits[i - start] == text@[i as int]);
        let ghost next = digits.subrange(0, i - start + 1);
        assert(next.drop_last() =~= digits.subrange(0, i - start));
        assert(next.last() == digits[i - start]);
        match hex_digit_of_byte(byte) {
            Some(digit) => {
                value = value * 16 + digit as u64;
                assert(value == hex_value(next));
                assert(all_hex(next)) by {
                    assert forall|j: int| 0 <= j < next.len() implies (#[trigger] hex_digit(
                        next[j],
                    )) is Some by {
                        if j < i - start {
                            assert(next[j] == digits.subrange(0, i - start)[j]);
                        }
                    }
                }
                if value > max as u64 {
                    proof {
                        lemma_hex_value_grows(digits, i - start + 1);
                    }
                    return None;
                }
            },
            None => {
                assert(hex_digit(digits[i - start]) is None);
                return None;
            },
        }
        i += 1;
    }
    assert(digits.subrange(0, len - start) =~= digits);
    Some(value as u32)
}

/// The id that the text of an id attribute stands for: a number in base 16
/// of at most 16 bits, with or without `0x` in front of it. A text that
/// spells no such number is reported with the attribute's name and the text
/// as it stands behind the prefix.
fn parse_id(attribute: &'static str, value: Option<&str>, max: u32) -> (id: SysFsResult<u32>)
    ensures
        match value {
            None => id matches Err(SysFsError::MissingAttribute { attribute: name }) && name
                == attribute,
            Some(text) => match hex_number(without_hex_prefix(text@), max as nat) {
                Some(number) => id == Ok::<u32, SysFsError>(number as u32) && number <= max,
                None => id matches Err(
                    SysFsError::InvalidAttributeValue { attribute: name, value: rest },
                ) && name == attribute && rest@ == without_hex_prefix(text@),
            },
        },
{
    match value {
        None => Err(SysFsError::MissingAttribute { attribute }),
        Some(text) => {
            let rest = strip_hex_prefix(text);
            match parse_hex(rest, max) {
                Some(number) => Ok(number),
                None => Err(SysFsError::InvalidAttributeValue { attribute, value: rest.to_owned() }),
            }
        },
    }
}

/// What an id attribute holds: the id, or the error that names the
/// attribute.
pub open spec fn id_of(attribute: &'static str, value: Option<Seq<char>>, id: SysFsResult<u16>) -> bool {
    match value {
        None => id matches Err(SysFsError::MissingAttribute { attribute: name }) && name
            == attribute,
        Some(text) => match hex_number(without_hex_prefix(text), 0xffff) {
            Some(number) => id == Ok::<u16, SysFsError>(number as u16),
            None => id matches Err(
                SysFsError::InvalidAttributeValue { attribute: name, value: rest },
            ) && name == attribute && rest@ == without_hex_prefix(text),
        },
    }
}

/// The view of an optional text.
pub open spec fn text_of(value: Option<&str>) -> Option<Seq<char>> {
    match value {
        Some(text) => Some(text@),
        None => None,
    }
}

/// The vendor id that the attribute `vendor` holds.
pub fn vendor_id(value: Option<&str>) -> (id: SysFsResult<u16>)
    ensures
        id_of("vendor", text_of(value), id),
{
    match parse_id("vendor", value, 0xffff) {
        Ok(number) => Ok(number as u16),
        Err(error) => Err(error),
    }
}

/// The device id that the attribute `device` holds.
pub fn device_id(value: Option<&str>) -> (id: SysFsResult<u16>)
    ensures
        id_of("device", text_of(value), id),
{
    match parse_id("device", value, 0xffff) {
        Ok(number) => Ok(number as u16),
        Err(error) => Err(error),
    }
}

/// The class that the attribute `class` holds: a number in base 16 of at
/// most 32 bits, unpacked.
pub fn class(value: Option<&str>) -> (class: SysFsResult<Class>)
    ensures
        match value {
            None => class matches Err(SysFsError::MissingAttribute { attribute: name }) && name
                == "class",
            Some(text) => match hex_number(without_hex_prefix(text@), 0xffff_ffff) {
                Some(number) => class == Ok::<Class, SysFsError>(Class::of_code(number as u32)),
                None => class matches Err(
                    SysFsError::InvalidAttributeValue { attribute: name, value: rest },
                ) && name == "class" && rest@ == without_hex_prefix(text@),
            },
        },
{
    match parse_id("class", value, 0xffff_ffff) {
        Ok(number) => Ok(Class::from_code(number)),
        Err(error) => Err(error),
    }
}

/// The power state of a PCI device.
#[derive(Debug, Clone, Copy, PartialEq, Eq, Structural)]
pub enum PowerState {
    Unknown,
    Error,
    D0,
    D1,
    D2,
    D3hot,
    D3cold,
}

impl PowerState {
    /// The state that the text of the attribute `power_state` names.
    pub open spec fn parse(text: Seq<char>) -> Option<PowerState> {
        if text == "unknown"@ {
            Some(PowerState::Unknown)
        } else if text == "error"@ {
            Some(PowerState::Error)
        } else if text == "D0"@ {
            Some(PowerState::D0)
        } else if text == "D1"@ {
            Some(PowerState::D1)
        } else if text == "D2"@ {
            Some(PowerState::D2)
        } else if text == "D3hot"@ {
            Some(PowerState::D3hot)
        } else if text == "D3cold"@ {
            Some(PowerState::D3cold)
        } else {
            None
        }
    }

    /// The name of the state for a reader.
    pub open spec fn name(self) -> Seq<char> {
        match self {
            PowerState::Unknown => "Unknown"@,
            PowerState::Error => "Error"@,
            PowerState::D0 => "D0"@,
            PowerState::D1 => "D1"@,
            PowerState::D2 => "D2"@,
            PowerState::D3hot => "D3hot"@,
            PowerState::D3cold => "D3cold"@,
        }
    }

    /// Reads the state from the text of the attribute `power_state`. A text
    /// that names no state is reported with the attribute's name.
    pub fn from_sysfs(value: &str) -> (state: SysFsResult<PowerState>)
        ensures
            match PowerState::parse(value@) {
                Some(found) => state == Ok::<PowerState, SysFsError>(found),
                None => state matches Err(
                    SysFsError::InvalidAttributeValue { attribute, value: text },
                ) && attribute == "power_state" && text@ == value@,
            },
    {
        if str_eq(value, "unknown") {
            Ok(PowerState::Unknown)
        } else if str_eq(value, "error") {
            Ok(PowerState::Error)
        } else if str_eq(value, "D0") {
            Ok(PowerState::D0)
        } else if str_eq(value, "D1") {
            Ok(PowerState::D1)
        } else if str_eq(value, "D2") {
            Ok(PowerState::D2)
        } else if str_eq(value, "D3hot") {
            Ok(PowerState::D3hot)
        } else if str_eq(value, "D3cold") {
            Ok(PowerState::D3cold)
        } else {
            Err(
                SysFsError::InvalidAttributeValue {
                    attribute: "power_state",
                    value: value.to_owned(),
                },
            )
        }
    }

    /// The name of the state for a reader.
    pub fn as_str(self) -> (text: &'static str)
        ensures
            text@ == self.name(),
    {
        match self {
            PowerState::Unknown => "Unknown",
            PowerState::Error => "Error",
            PowerState::D0 => "D0",
            PowerState::D1 => "D1",
            PowerState::D2 => "D2",
            PowerState::D3hot => "D3hot",
            PowerState::D3cold => "D3cold",
        }
    }
}

/// The power state that the attribute `power_state` holds.
pub fn get_power_state(value: Option<&str>) -> (state: SysFsResult<PowerState>)
    ensures
        match value {
            None => state matches Err(SysFsError::MissingAttribute { attribute }) && attribute
                == "power_state",
            Some(text) => match PowerState::parse(text@) {
                Some(found) => state == Ok::<PowerState, SysFsError>(found),
                None => state matches Err(
                    SysFsError::InvalidAttributeValue { attribute, value: held },
                ) && attribute == "power_state" && held@ == text@,
            },
        },
{
    match value {
        None => Err(SysFsError::MissingAttribute { attribute: "power_state" }),
        Some(text) => PowerState::from_sysfs(text),
    }
}

/// Whether the kernel manages the power of a device at runtime.
#[derive(Debug, Clone, Copy, PartialEq, Eq, Structural)]
pub enum RuntimePowerManagement {
    On,
    Off,
}

/// The text given names no setting of runtime power management.
#[derive(Debug, Clone, Copy, PartialEq, Eq, Structural)]
pub struct InvalidRuntimePmError;

impl RuntimePowerManagement {
    /// The setting that the text of the attribute `power/control` names:
    /// `auto` lets the kernel manage the device, `on` keeps it powered.
    pub open spec fn parse_sysfs(text: Seq<char>) -> Option<RuntimePowerManagement> {
        if text == "auto"@ {
            Some(RuntimePowerManagement::On)
        } else if text == "on"@ {
            Some(RuntimePowerManagement::Off)
        } else {
            None
        }
    }

    /// The text that the attribute `power/control` takes for the setting.
    pub open spec fn sysfs_name(self) -> Seq<char> {
        match self {
            RuntimePowerManagement::On => "auto"@,
            RuntimePowerManagement::Off => "on"@,
        }
    }

    /// The name of the setting for a reader.
    pub open spec fn name(self) -> Seq<char> {
        match self {
            RuntimePowerManagement::On => "On"@,
            RuntimePowerManagement::Off => "Off"@,
        }
    }

    /// The setting that a word of the user names.
    pub open spec fn parse(text: Seq<char>) -> Option<RuntimePowerManagement> {
        if text == "on"@ || text == "On"@ || text == "ON"@ {
            Some(RuntimePowerManagement::On)
        } else if text == "off"@ || text == "Off"@ || text == "OFF"@ {
            Some(RuntimePowerManagement::Off)
        } else {
            None
        }
    }

    /// Reads the setting from the text of the attribute `power/control`. A
    /// text that names no setting is reported with the attribute's name.
    pub fn from_sysfs(value: &str) -> (setting: SysFsResult<RuntimePowerManagement>)
        ensures
            match RuntimePowerManagement::parse_sysfs(value@) {
                Some(found) => setting == Ok::<RuntimePowerManagement, SysFsError>(found),
                None => setting matches Err(
                    SysFsError::InvalidAttributeValue { attribute, value: text },
                ) && attribute == "power/control" && text@ == value@,
            },
    {
        if str_eq(value, "auto") {
            Ok(RuntimePowerManagement::On)
        } else if str_eq(value, "on") {
            Ok(RuntimePowerManagement::Off)
        } else {
            Err(
                SysFsError::InvalidAttributeValue {
                    attribute: "power/control",
                    value: value.to_owned(),
                },
            )
        }
    }

    /// The text that the attribute `power/control` takes for the setting.
    pub fn as_sysfs(&self) -> (text: &'static str)
        ensures
            text@ == self.sysfs_name(),
    {
        match self {
            RuntimePowerManagement::On => "auto",
            RuntimePowerManagement::Off => "on",
        }
    }

    /// The name of the setting for a reader.
    pub fn as_str(self) -> (text: &'static str)
        ensures
            text@ == self.name(),
    {
        match self {
            RuntimePowerManagement::On => "On",
            RuntimePowerManagement::Off => "Off",
        }
    }

    /// Parses a word of the user.
    pub fn parse_word(s: &str) -> (setting: Result<RuntimePowerManagement, InvalidRuntimePmError>)
        ensures
            setting == match RuntimePowerManagement::parse(s@) {
                Some(found) => Ok::<RuntimePowerManagement, InvalidRuntimePmError>(found),
                None => Err::<RuntimePowerManagement, InvalidRuntimePmError>(
                    InvalidRuntimePmError,
                ),
            },
    {
        if str_eq(s, "on") || str_eq(s, "On") || str_eq(s, "ON") {
            Ok(RuntimePowerManagement::On)
        } else if str_eq(s, "off") || str_eq(s, "Off") || str_eq(s, "OFF") {
            Ok(RuntimePowerManagement::Off)
        } else {
            Err(InvalidRuntimePmError)
        }
    }
}

impl core::str::FromStr for RuntimePowerManagement {
    type Err = InvalidRuntimePmError;

    fn from_str(s: &str) -> (setting: Result<Self, InvalidRuntimePmError>)
        ensures
            setting == match RuntimePowerManagement::parse(s@) {
                Some(found) => Ok::<RuntimePowerManagement, InvalidRuntimePmError>(found),
                None => Err::<RuntimePowerManagement, InvalidRuntimePmError>(
                    InvalidRuntimePmError,
                ),
            },
    {
        RuntimePowerManagement::parse_word(s)
    }
}

/// The setting that the attribute `power/control` holds.
pub fn get_runtime_pm(value: Option<&str>) -> (setting: SysFsResult<RuntimePowerManagement>)
    ensures
        match value {
            None => setting matches Err(SysFsError::MissingAttribute { attribute }) && attribute
                == "power/control",
            Some(text) => match RuntimePowerManagement::parse_sysfs(text@) {
                Some(found) => setting == Ok::<RuntimePowerManagement, SysFsError>(found),
                None => setting matches Err(
                    SysFsError::InvalidAttributeValue { attribute, value: held },
                ) && attribute == "power/control" && held@ == text@,
            },
        },
{
    match value {
        None => Err(SysFsError::MissingAttribute { attribute: "power/control" }),
        Some(text) => RuntimePowerManagement::from_sysfs(text),
    }
}

/// What is written to the attribute `power/control` is read back as the
/// setting that was written.
pub proof fn lemma_runtime_pm_round_trip(setting: RuntimePowerManagement)
    ensures
        RuntimePowerManagement::parse_sysfs(setting.sysfs_name()) == Some(setting),
{
    reveal_strlit("auto");
    reveal_strlit("on");
    assert("auto"@.len() == 4);
    assert("on"@.len() == 2);
}

} // verus!
