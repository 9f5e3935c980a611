use rf230::platform::{format_u8, with_driver, DriverSlot};

#[test]
fn bytes_are_shown_most_significant_bit_first() {
    assert_eq!(&format_u8(0), b"00000000");
    assert_eq!(&format_u8(0xFF), b"11111111");
    assert_eq!(&format_u8(0b1000_0001), b"10000001");
    assert_eq!(&format_u8(0b0101_0011), b"01010011");
    for value in 0..=255u8 {
        let text = format!("{:08b}", value);
        assert_eq!(&format_u8(value), text.as_bytes());
    }
}

#[test]
fn three_drivers_can_be_reached() {
    assert_eq!(with_driver(0), Some(DriverSlot::Console));
    assert_eq!(with_driver(1), Some(DriverSlot::Gpio));
    assert_eq!(with_driver(2), Some(DriverSlot::Tmp006));
    assert_eq!(with_driver(3), None);
    assert_eq!(with_driver(usize::MAX), None);
}
