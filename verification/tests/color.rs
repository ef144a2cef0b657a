use n64_gfx::color::Color;

#[test]
fn value_round_trips() {
    assert_eq!(Color::new(0x1234).value(), 0x1234);
}

#[test]
fn from_channels_packs_5551() {
    assert_eq!(Color::from_channels(31, 31, 31, 1).value(), 0xffff);
    assert_eq!(Color::from_channels(0, 0, 0, 0).value(), 0);
    assert_eq!(Color::from_channels(16, 3, 3, 1).value(), 0b10000_00011_00011_1);
}

#[test]
fn channel_accessors() {
    let c = Color::new(0b10000_00011_00011_1);
    assert_eq!(c.r(), 16);
    assert_eq!(c.g(), 3);
    assert_eq!(c.b(), 3);
    assert_eq!(c.a(), 1);
}

#[test]
fn from_bytes_quantizes_to_nearest() {
    assert_eq!(Color::from_bytes([255, 255, 255, 255]).value(), 0xffff);
    assert_eq!(Color::from_bytes([0, 0, 0, 0]).value(), 0);
    // 128 -> 16, 64 -> 8, 32 -> 4, alpha 200 -> 1
    assert_eq!(Color::from_bytes([128, 64, 32, 200]).value(), 16 * 2048 + 8 * 64 + 4 * 2 + 1);
}

#[test]
fn to_bytes_expands_to_nearest() {
    assert_eq!(Color::new(0xffff).to_bytes(), [255, 255, 255, 255]);
    assert_eq!(Color::from_channels(16, 8, 4, 0).to_bytes(), [132, 66, 33, 0]);
}

#[test]
fn byte_round_trip_preserves_channels() {
    for (r, g, b, a) in [(16u16, 8u16, 4u16, 1u16), (31, 0, 31, 0), (1, 2, 3, 1)] {
        let c = Color::from_channels(r, g, b, a);
        let back = Color::from_bytes(c.to_bytes());
        assert_eq!(back.value(), c.value());
    }
}
