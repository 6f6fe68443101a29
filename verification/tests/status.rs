use surface_control::dtx::status::{classify, low_byte, Category, HardwareError, RuntimeError};

#[test]
fn classify_follows_the_top_nibble() {
    assert_eq!(classify(0x0000), Category::Status(0x0000));
    assert_eq!(classify(0x0fff), Category::Status(0x0fff));
    assert_eq!(classify(0x1000), Category::RuntimeError(0x1000));
    assert_eq!(classify(0x1fff), Category::RuntimeError(0x1fff));
    assert_eq!(classify(0x2000), Category::HardwareError(0x2000));
    assert_eq!(classify(0x2fff), Category::HardwareError(0x2fff));
    assert_eq!(classify(0x3000), Category::Unknown(0x3000));
    assert_eq!(classify(0xf000), Category::Unknown(0xf000));
    assert_eq!(classify(0xffff), Category::Unknown(0xffff));
}

#[test]
fn classify_is_total_and_keeps_the_code() {
    for code in 0..=u16::MAX {
        let category = classify(code);
        assert_eq!(category.code(), code);
        let expected = match code >> 12 {
            0 => Category::Status(code),
            1 => Category::RuntimeError(code),
            2 => Category::HardwareError(code),
            _ => Category::Unknown(code),
        };
        assert_eq!(category, expected);
        assert_eq!(classify(code), category);
    }
}

#[test]
fn low_byte_drops_the_high_byte() {
    assert_eq!(low_byte(0x2099), 0x99);
    assert_eq!(low_byte(0x00ff), 0xff);
    assert_eq!(low_byte(0xff00), 0x00);
}

#[test]
fn runtime_errors_by_code() {
    assert_eq!(RuntimeError::from_code(0x1001), RuntimeError::NotFeasible);
    assert_eq!(RuntimeError::from_code(0x1002), RuntimeError::Timeout);
    assert_eq!(RuntimeError::from_code(0x1003), RuntimeError::Unknown(0x03));
    assert_eq!(RuntimeError::from_code(0x1abc), RuntimeError::Unknown(0xbc));
    assert_eq!(RuntimeError::NotFeasible.code(), 0x1001);
    assert_eq!(RuntimeError::Timeout.code(), 0x1002);
    assert_eq!(RuntimeError::Unknown(0xbc).code(), 0x10bc);
}

#[test]
fn hardware_errors_by_code() {
    assert_eq!(HardwareError::from_code(0x2001), HardwareError::FailedToOpen);
    assert_eq!(HardwareError::from_code(0x2002), HardwareError::FailedToRemainOpen);
    assert_eq!(HardwareError::from_code(0x2003), HardwareError::FailedToClose);
    assert_eq!(HardwareError::from_code(0x2099), HardwareError::Unknown(0x99));
    assert_eq!(HardwareError::FailedToOpen.code(), 0x2001);
    assert_eq!(HardwareError::FailedToRemainOpen.code(), 0x2002);
    assert_eq!(HardwareError::FailedToClose.code(), 0x2003);
    assert_eq!(HardwareError::Unknown(0x99).code(), 0x2099);
}

#[test]
fn error_codes_decode_back() {
    for byte in 0..=u8::MAX {
        let runtime = RuntimeError::from_code(0x1000 | byte as u16);
        assert_eq!(RuntimeError::from_code(runtime.code()), runtime);
        let hardware = HardwareError::from_code(0x2000 | byte as u16);
        assert_eq!(HardwareError::from_code(hardware.code()), hardware);
    }
}
