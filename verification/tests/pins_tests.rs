use keybow::errors::KeypadError;
use keybow::pins::resolve_pin;
use keybow::pins::DeviceVariant;

#[test]
fn mini_table_is_exact() {
    assert_eq!(resolve_pin(DeviceVariant::Mini, 0), Ok(20));
    assert_eq!(resolve_pin(DeviceVariant::Mini, 1), Ok(17));
    assert_eq!(resolve_pin(DeviceVariant::Mini, 2), Ok(24));
}

#[test]
fn full_table_is_exact() {
    let expected: [u32; 12] = [20, 6, 22, 17, 16, 12, 24, 27, 26, 13, 5, 23];
    for (index, pin) in expected.iter().enumerate() {
        assert_eq!(resolve_pin(DeviceVariant::Full, index), Ok(*pin));
    }
}

#[test]
fn out_of_range_indices_are_rejected() {
    assert_eq!(
        resolve_pin(DeviceVariant::Mini, 3),
        Err(KeypadError::InvalidIndex)
    );
    assert_eq!(
        resolve_pin(DeviceVariant::Full, 12),
        Err(KeypadError::InvalidIndex)
    );
    assert_eq!(
        resolve_pin(DeviceVariant::Mini, usize::MAX),
        Err(KeypadError::InvalidIndex)
    );
    assert_eq!(
        resolve_pin(DeviceVariant::Full, usize::MAX),
        Err(KeypadError::InvalidIndex)
    );
}

#[test]
fn pins_are_distinct_within_each_variant() {
    for variant in [DeviceVariant::Mini, DeviceVariant::Full] {
        let count = match variant {
            DeviceVariant::Mini => 3,
            DeviceVariant::Full => 12,
        };
        let mut seen: Vec<u32> = Vec::new();
        for index in 0..count {
            let pin = resolve_pin(variant, index).unwrap();
            assert!(!seen.contains(&pin));
            seen.push(pin);
        }
    }
}

#[test]
fn active_low_polarity_is_inverted() {
    // Raw low (0) is a pressed key; any raw high level is released.
    assert!(keybow::cdev::level_from_raw(0));
    assert!(!keybow::cdev::level_from_raw(1));
    assert!(!keybow::cdev::level_from_raw(255));
}

#[test]
fn error_descriptions() {
    assert_eq!(
        KeypadError::InvalidIndex.describe(),
        "invalid key index for device variant"
    );
    assert_eq!(KeypadError::BackendOpen.describe(), "backend could not open pin");
    assert_eq!(KeypadError::Io.describe(), "pin level read failed");
}
