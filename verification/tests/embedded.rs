use thermal_print::embedded::{
    barcode_image_to_escpos, fit_to_raster_area, logo_to_escpos, payload_of, raster_from_base64,
    raster_from_encoded, raster_from_picture, DecodingError,
};
use thermal_print::picture::RgbImage;

fn png_of(width: u32, height: u32, color: impl Fn(u32, u32) -> [u8; 3]) -> Vec<u8> {
    let mut buffer: image::RgbImage = image::ImageBuffer::new(width, height);
    for y in 0..height {
        for x in 0..width {
            buffer.put_pixel(x, y, image::Rgb(color(x, y)));
        }
    }
    let mut bytes = Vec::new();
    image::DynamicImage::ImageRgb8(buffer)
        .write_to(&mut std::io::Cursor::new(&mut bytes), image::ImageFormat::Png)
        .unwrap();
    bytes
}

fn base64_of(bytes: &[u8]) -> String {
    base64::Engine::encode(&base64::engine::general_purpose::STANDARD, bytes)
}

fn header() -> Vec<u8> {
    vec![0x1D, 0x76, 0x30, 0x00, 48, 0, 64, 0]
}

#[test]
fn black_logo_rasterizes_to_ones() {
    let text = base64_of(&png_of(384, 64, |_, _| [0, 0, 0]));
    let command = logo_to_escpos(&text).unwrap();
    assert_eq!(&command[..4], &[0x1D, 0x76, 0x30, 0x00]);
    assert_eq!(&command[4..8], &[48, 0, 64, 0]);
    assert_eq!(command.len(), 8 + 48 * 8);
    assert!(command[8..].iter().all(|byte| *byte == 0xFF));
}

#[test]
fn white_logo_rasterizes_to_zeros() {
    let text = base64_of(&png_of(384, 64, |_, _| [255, 255, 255]));
    let command = logo_to_escpos(&text).unwrap();
    assert_eq!(&command[..8], header().as_slice());
    assert_eq!(command.len(), 8 + 48 * 8);
    assert!(command[8..].iter().all(|byte| *byte == 0x00));
}

#[test]
fn left_half_black_fills_left_bytes() {
    let text = base64_of(&png_of(384, 64, |x, _| if x < 192 { [0, 0, 0] } else { [255, 255, 255] }));
    let command = barcode_image_to_escpos(&text).unwrap();
    assert_eq!(&command[..8], header().as_slice());
    for row in 0..8 {
        let bytes = &command[8 + 48 * row..8 + 48 * (row + 1)];
        assert!(bytes[..24].iter().all(|byte| *byte == 0xFF));
        assert!(bytes[24..].iter().all(|byte| *byte == 0x00));
    }
}

#[test]
fn data_url_is_accepted() {
    let plain = base64_of(&png_of(384, 64, |_, _| [0, 0, 0]));
    let url = format!("data:image/png;base64,{}", plain);
    assert_eq!(logo_to_escpos(&url), logo_to_escpos(&plain));
    assert!(logo_to_escpos(&url).is_ok());
}

#[test]
fn data_url_without_marker_is_refused() {
    assert_eq!(logo_to_escpos("data:image/png;QUJD"), Err(DecodingError::MissingMarker));
    assert_eq!(barcode_image_to_escpos("data:image/"), Err(DecodingError::MissingMarker));
}

#[test]
fn text_that_is_not_base64_is_refused() {
    assert_eq!(logo_to_escpos("@@@@"), Err(DecodingError::InvalidBase64));
    assert_eq!(logo_to_escpos("QUJ"), Err(DecodingError::InvalidBase64));
    assert_eq!(logo_to_escpos("data:image/png;base64,@@@@"), Err(DecodingError::InvalidBase64));
    assert_eq!(raster_from_base64("QUJD\n"), Err(DecodingError::InvalidBase64));
}

#[test]
fn bytes_that_are_no_picture_are_refused() {
    assert_eq!(logo_to_escpos(&base64_of(b"hello, printer")), Err(DecodingError::InvalidImage));
    assert_eq!(logo_to_escpos(""), Err(DecodingError::InvalidImage));
    assert_eq!(raster_from_encoded(b"hello"), Err(DecodingError::InvalidImage));
    assert_eq!(raster_from_encoded(&[]), Err(DecodingError::InvalidImage));
}

#[test]
fn bare_base64_is_trimmed() {
    let plain = base64_of(&png_of(384, 64, |_, _| [0, 0, 0]));
    let padded = format!(" \t\n{}\r\n\u{a0}\u{3000} ", plain);
    assert_eq!(logo_to_escpos(&padded), logo_to_escpos(&plain));
    assert!(logo_to_escpos(&padded).is_ok());
}

#[test]
fn payload_of_a_data_url_is_not_trimmed() {
    let plain = base64_of(&png_of(384, 64, |_, _| [0, 0, 0]));
    let url = format!("data:image/png;base64, {}", plain);
    assert_eq!(logo_to_escpos(&url), Err(DecodingError::InvalidBase64));
}

#[test]
fn payload_is_found() {
    assert_eq!(payload_of("  QUJD  "), Ok("QUJD"));
    assert_eq!(payload_of("QUJD"), Ok("QUJD"));
    assert_eq!(payload_of("   "), Ok(""));
    assert_eq!(payload_of(""), Ok(""));
    assert_eq!(payload_of("data:image/png;base64,QUJD"), Ok("QUJD"));
    assert_eq!(payload_of("data:image/png;base64, QUJD "), Ok(" QUJD "));
    assert_eq!(payload_of("data:image/png;base64,"), Ok(""));
    assert_eq!(payload_of("data:image/base64,base64,QUJD"), Ok("base64,QUJD"));
    assert_eq!(payload_of("data:image/png;base64"), Err(DecodingError::MissingMarker));
    assert_eq!(payload_of(" data:image/png;base64,QUJD"), Ok("data:image/png;base64,QUJD"));
    assert_eq!(payload_of("data:text/plain;base64,QUJD"), Ok("data:text/plain;base64,QUJD"));
    assert_eq!(payload_of("data:image/\u{e9};base64,\u{e9}Q"), Ok("\u{e9}Q"));
}

#[test]
fn any_picture_is_scaled_to_384_by_64() {
    for (width, height) in [(1u32, 1u32), (10, 10), (64, 384), (800, 20), (383, 65), (384, 64)] {
        let samples = vec![0u8; 3 * width as usize * height as usize];
        let picture = RgbImage::new(width, height, samples).unwrap();
        let fitted = fit_to_raster_area(&picture);
        assert_eq!(fitted.width(), 384);
        assert_eq!(fitted.height(), 64);
        assert_eq!(fitted.samples().len(), 3 * 384 * 64);
        assert!(fitted.samples().iter().all(|sample| *sample == 0));
    }
}

#[test]
fn small_black_picture_fills_the_print_area() {
    let text = base64_of(&png_of(10, 10, |_, _| [0, 0, 0]));
    let command = logo_to_escpos(&text).unwrap();
    assert_eq!(&command[..8], header().as_slice());
    assert_eq!(command.len(), 8 + 48 * 8);
    assert!(command[8..].iter().all(|byte| *byte == 0xFF));
}

#[test]
fn tall_picture_is_squeezed_not_padded() {
    // Black above, white below: after scaling the upper bands are ink and
    // the lower ones are not, over the whole width.
    let text = base64_of(&png_of(20, 200, |_, y| if y < 100 { [0, 0, 0] } else { [255, 255, 255] }));
    let command = logo_to_escpos(&text).unwrap();
    assert_eq!(&command[..8], header().as_slice());
    assert_eq!(command.len(), 8 + 48 * 8);
    assert!(command[8..8 + 48 * 4].iter().all(|byte| *byte == 0xFF));
    assert!(command[8 + 48 * 4..].iter().all(|byte| *byte == 0x00));
}

#[test]
fn empty_picture_prints_black() {
    let picture = RgbImage::new(0, 0, vec![]).unwrap();
    let command = raster_from_picture(&picture).unwrap();
    assert_eq!(&command[..8], header().as_slice());
    assert!(command[8..].iter().all(|byte| *byte == 0xFF));
}

#[test]
fn pictures_in_other_built_in_formats_are_read() {
    let mut buffer: image::RgbImage = image::ImageBuffer::new(384, 64);
    for pixel in buffer.pixels_mut() {
        *pixel = image::Rgb([255, 255, 255]);
    }
    for format in [image::ImageFormat::Bmp, image::ImageFormat::Jpeg, image::ImageFormat::Gif] {
        let mut bytes = Vec::new();
        image::DynamicImage::ImageRgb8(buffer.clone())
            .write_to(&mut std::io::Cursor::new(&mut bytes), format)
            .unwrap();
        let command = raster_from_encoded(&bytes).unwrap();
        assert_eq!(&command[..8], header().as_slice());
        assert!(command[8..].iter().all(|byte| *byte == 0x00));
    }
}

#[test]
fn picture_with_an_unknown_signature_is_refused() {
    let mut bytes = png_of(8, 8, |_, _| [0, 0, 0]);
    bytes[0] = b'X';
    assert_eq!(raster_from_encoded(&bytes), Err(DecodingError::InvalidImage));
    let mut bytes = png_of(8, 8, |_, _| [0, 0, 0]);
    bytes.truncate(20);
    assert_eq!(raster_from_encoded(&bytes), Err(DecodingError::InvalidImage));
}

#[test]
fn picture_of_the_print_area_is_not_resampled() {
    // A pattern that resampling would blur is kept dot for dot.
    let text = base64_of(&png_of(384, 64, |x, _| if x % 2 == 0 { [0, 0, 0] } else { [255, 255, 255] }));
    let command = logo_to_escpos(&text).unwrap();
    assert!(command[8..].iter().all(|byte| *byte == 0b1010_1010));
    let samples: Vec<u8> = (0..3 * 384 * 64).map(|i| (i % 251) as u8).collect();
    let picture = RgbImage::new(384, 64, samples.clone()).unwrap();
    assert_eq!(fit_to_raster_area(&picture).samples(), samples.as_slice());
}

#[test]
fn same_picture_gives_same_command() {
    let text = base64_of(&png_of(50, 30, |x, y| [(x * 5) as u8, (y * 8) as u8, 128]));
    let first = logo_to_escpos(&text).unwrap();
    let second = logo_to_escpos(&text).unwrap();
    assert_eq!(first, second);
    assert_eq!(barcode_image_to_escpos(&text).unwrap(), first);
}

#[test]
fn grey_picture_is_converted_to_rgb() {
    let mut buffer: image::GrayImage = image::ImageBuffer::new(384, 64);
    for pixel in buffer.pixels_mut() {
        *pixel = image::Luma([200]);
    }
    let mut bytes = Vec::new();
    image::DynamicImage::ImageLuma8(buffer)
        .write_to(&mut std::io::Cursor::new(&mut bytes), image::ImageFormat::Png)
        .unwrap();
    let command = raster_from_encoded(&bytes).unwrap();
    assert_eq!(&command[..8], header().as_slice());
    assert!(command[8..].iter().all(|byte| *byte == 0x00));
}
