use thermal_print::barcode::escpos_code128;

#[test]
fn code128_frames_eight_digits() {
    let command = escpos_code128("12345678");
    let mut expected = vec![0x1D, 0x6B, 0x49, 0x08];
    expected.extend_from_slice(b"12345678");
    assert_eq!(command, expected);
}

#[test]
fn code128_cuts_long_values_to_255_bytes() {
    let value: String = (0..300).map(|i| char::from(b'0' + (i % 10) as u8)).collect();
    let command = escpos_code128(&value);
    assert_eq!(command.len(), 4 + 255);
    assert_eq!(&command[..3], &[0x1D, 0x6B, 73]);
    assert_eq!(command[3], 255);
    assert_eq!(&command[4..], &value.as_bytes()[..255]);
}
