use obd::DTC;

#[test]
fn dtc_powertrain_code() {
    assert_eq!(DTC::decode([0x01, 0x23]).to_string(), "P0123");
}

#[test]
fn dtc_module_letters_follow_top_bits() {
    assert_eq!(DTC::decode([0x00, 0x00]).to_string(), "P0000");
    assert_eq!(DTC::decode([0x40, 0x00]).to_string(), "C0000");
    assert_eq!(DTC::decode([0x80, 0x00]).to_string(), "B0000");
    assert_eq!(DTC::decode([0xC0, 0x00]).to_string(), "U0000");
}

#[test]
fn dtc_class_digit_and_hex_digits() {
    assert_eq!(DTC::decode([0x3A, 0xBC]).to_string(), "P3ABC");
    assert_eq!(DTC::decode([0xFF, 0xFF]).to_string(), "U3FFF");
    assert_eq!(DTC::decode([0x9E, 0x0F]).to_string(), "B1E0F");
}

#[test]
fn dtc_text_is_five_characters_for_every_input() {
    for b0 in 0..=255u8 {
        for b1 in [0x00u8, 0x5A, 0xFF] {
            let a = DTC::decode([b0, b1]).to_string();
            let b = DTC::decode([b0, b1]).to_string();
            assert_eq!(a.len(), 5);
            assert_eq!(a, b);
        }
    }
}

#[test]
fn dtc_keeps_its_bytes() {
    assert_eq!(DTC::decode([0x12, 0x34]).bytes(), [0x12, 0x34]);
}
