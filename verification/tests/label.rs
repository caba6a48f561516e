use thermal_print::label::{
    barcode_commands, label_batch_commands, push_label, push_name, push_native_barcode,
    BarcodeLabel,
};

fn picture(black: bool) -> String {
    let mut buffer: image::RgbImage = image::ImageBuffer::new(384, 64);
    if !black {
        for pixel in buffer.pixels_mut() {
            *pixel = image::Rgb([255, 255, 255]);
        }
    }
    let mut bytes = Vec::new();
    image::DynamicImage::ImageRgb8(buffer)
        .write_to(&mut std::io::Cursor::new(&mut bytes), image::ImageFormat::Png)
        .unwrap();
    base64::Engine::encode(&base64::engine::general_purpose::STANDARD, bytes)
}

fn label(value: Option<&str>, image: Option<&str>, name: &str) -> BarcodeLabel {
    BarcodeLabel {
        barcode_image_base64: image.map(|text| text.to_string()),
        barcode_value: value.map(|text| text.to_string()),
        product_name: name.to_string(),
    }
}

fn native(value: &[u8]) -> Vec<u8> {
    let mut out = vec![0x1D, 0x68, 0x40, 0x1D, 0x77, 0x02, 0x1D, 0x6B, 73, value.len() as u8];
    out.extend_from_slice(value);
    out
}

fn raster(fill: u8) -> Vec<u8> {
    let mut out = vec![0x1D, 0x76, 0x30, 0x00, 48, 0, 64, 0];
    out.extend(std::iter::repeat(fill).take(384));
    out
}

fn name_block(name: &[u8]) -> Vec<u8> {
    let mut out = name.to_vec();
    out.extend_from_slice(&[b'\n', 0x1B, 0x64, 0x03]);
    out
}

#[test]
fn empty_batch_is_reset_and_cut() {
    assert_eq!(label_batch_commands(&[]), vec![0x1B, 0x40, 0x1D, 0x56, 0x00]);
}

#[test]
fn name_follows_the_barcode_payload_directly() {
    let stream = label_batch_commands(&[label(Some("42"), None, "Pan")]);
    assert_eq!(
        stream,
        vec![
            0x1B, 0x40, 0x1D, 0x68, 0x40, 0x1D, 0x77, 0x02, 0x1D, 0x6B, 73, 2, b'4', b'2', b'P',
            b'a', b'n', b'\n', 0x1B, 0x64, 0x03, 0x1D, 0x56, 0x00
        ]
    );
}

#[test]
fn label_with_value_uses_the_native_barcode() {
    let stream = label_batch_commands(&[label(Some("12345678"), None, "Pan")]);
    let mut expected = vec![0x1B, 0x40];
    expected.extend(native(b"12345678"));
    expected.extend(name_block(b"Pan"));
    expected.extend_from_slice(&[0x1D, 0x56, 0x00]);
    assert_eq!(stream, expected);
}

#[test]
fn value_is_preferred_over_picture() {
    let black = picture(true);
    assert_eq!(
        barcode_commands(&label(Some("42"), Some(&black), "x")),
        native(b"42")
    );
}

#[test]
fn picture_is_used_without_a_value() {
    let black = picture(true);
    let white = picture(false);
    assert_eq!(barcode_commands(&label(None, Some(&black), "x")), raster(0xFF));
    assert_eq!(barcode_commands(&label(Some(""), Some(&white), "x")), raster(0x00));
}

#[test]
fn label_without_barcode_has_only_its_name() {
    assert!(barcode_commands(&label(None, None, "x")).is_empty());
    assert!(barcode_commands(&label(Some(""), Some(""), "x")).is_empty());
    assert!(barcode_commands(&label(None, Some("no picture"), "x")).is_empty());
    assert!(barcode_commands(&label(Some(""), Some("data:image/png;QUJD"), "x")).is_empty());
    let stream = label_batch_commands(&[label(None, Some("QUJD"), "Leche")]);
    let mut expected = vec![0x1B, 0x40];
    expected.extend(name_block(b"Leche"));
    expected.extend_from_slice(&[0x1D, 0x56, 0x00]);
    assert_eq!(stream, expected);
}

#[test]
fn name_is_sent_as_its_utf8_bytes() {
    let mut out = vec![7u8];
    push_name(&mut out, "Caf\u{e9}");
    assert_eq!(out, vec![7, b'C', b'a', b'f', 0xC3, 0xA9, b'\n', 0x1B, 0x64, 0x03]);
}

#[test]
fn native_barcode_follows_height_and_width() {
    let mut out = vec![9u8];
    push_native_barcode(&mut out, "AB");
    assert_eq!(
        out,
        vec![9, 0x1D, 0x68, 0x40, 0x1D, 0x77, 0x02, 0x1D, 0x6B, 73, 2, b'A', b'B']
    );
}

#[test]
fn long_value_is_cut_to_255_bytes() {
    let value: String = std::iter::repeat('7').take(300).collect();
    let commands = barcode_commands(&label(Some(&value), None, "x"));
    assert_eq!(commands.len(), 6 + 4 + 255);
    assert_eq!(commands[9], 255);
    assert_eq!(&commands[10..], &value.as_bytes()[..255]);
}

#[test]
fn labels_keep_their_order_and_share_one_cut() {
    let labels = [
        label(Some("1"), None, "uno"),
        label(None, None, "dos"),
        label(Some("1"), None, "uno"),
    ];
    let stream = label_batch_commands(&labels);
    let mut expected = vec![0x1B, 0x40];
    expected.extend(native(b"1"));
    expected.extend(name_block(b"uno"));
    expected.extend(name_block(b"dos"));
    expected.extend(native(b"1"));
    expected.extend(name_block(b"uno"));
    expected.extend_from_slice(&[0x1D, 0x56, 0x00]);
    assert_eq!(stream, expected);
    let cuts = stream.windows(3).filter(|w| *w == [0x1D, 0x56, 0x00]).count();
    assert_eq!(cuts, 1);
}

#[test]
fn push_label_appends_one_label() {
    let mut out = vec![1u8, 2];
    push_label(&mut out, &label(Some("5"), None, "n"));
    let mut expected = vec![1u8, 2];
    expected.extend(native(b"5"));
    expected.extend(name_block(b"n"));
    assert_eq!(out, expected);
}

#[test]
fn same_batch_twice_gives_same_stream() {
    let black = picture(true);
    let labels = [label(None, Some(&black), "a"), label(Some("99"), None, "b")];
    assert_eq!(label_batch_commands(&labels), label_batch_commands(&labels));
}
