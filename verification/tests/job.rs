use thermal_print::job::{job_commands, kind_of, PrintJob};
use thermal_print::label::{label_batch_commands, BarcodeLabel};
use thermal_print::spooler::JobKind;
use thermal_print::ticket::ticket_commands;

fn logo() -> String {
    let mut buffer: image::RgbImage = image::ImageBuffer::new(40, 20);
    for (x, y, pixel) in buffer.enumerate_pixels_mut() {
        *pixel = image::Rgb([(x * 6) as u8, (y * 12) as u8, 90]);
    }
    let mut bytes = Vec::new();
    image::DynamicImage::ImageRgb8(buffer)
        .write_to(&mut std::io::Cursor::new(&mut bytes), image::ImageFormat::Png)
        .unwrap();
    base64::Engine::encode(&base64::engine::general_purpose::STANDARD, bytes)
}

fn ticket() -> PrintJob {
    PrintJob::Ticket { text: "Total: 3,50\nGracias".to_string(), logo: Some(logo()) }
}

fn batch() -> PrintJob {
    PrintJob::LabelBatch {
        labels: vec![
            BarcodeLabel {
                barcode_image_base64: Some(logo()),
                barcode_value: None,
                product_name: "Pan".to_string(),
            },
            BarcodeLabel {
                barcode_image_base64: None,
                barcode_value: Some("7501234567890".to_string()),
                product_name: "Leche".to_string(),
            },
        ],
    }
}

#[test]
fn job_stream_is_that_of_its_kind() {
    let text = "Total: 3,50\nGracias";
    assert_eq!(job_commands(&ticket()), ticket_commands(text, Some(&logo())));
    assert_eq!(
        job_commands(&PrintJob::Ticket { text: "A".to_string(), logo: None }),
        vec![0x1B, 0x40, b'A', 0x1B, 0x64, 0x05, 0x1D, 0x56, 0x00]
    );
    match batch() {
        PrintJob::LabelBatch { labels } => {
            assert_eq!(job_commands(&batch()), label_batch_commands(&labels))
        }
        _ => unreachable!(),
    }
    assert_eq!(
        job_commands(&PrintJob::LabelBatch { labels: vec![] }),
        vec![0x1B, 0x40, 0x1D, 0x56, 0x00]
    );
}

#[test]
fn same_job_twice_gives_the_same_bytes() {
    assert_eq!(job_commands(&ticket()), job_commands(&ticket()));
    assert_eq!(job_commands(&batch()), job_commands(&batch()));
    let job = ticket();
    assert_eq!(job_commands(&job), job_commands(&job));
}

#[test]
fn every_job_begins_with_reset_and_ends_with_cut() {
    for job in [
        ticket(),
        batch(),
        PrintJob::Ticket { text: String::new(), logo: Some("broken".to_string()) },
        PrintJob::LabelBatch { labels: vec![] },
    ] {
        let stream = job_commands(&job);
        assert_eq!(&stream[..2], &[0x1B, 0x40]);
        assert_eq!(&stream[stream.len() - 3..], &[0x1D, 0x56, 0x00]);
    }
}

#[test]
fn kind_of_a_job() {
    assert_eq!(kind_of(&ticket()), JobKind::Ticket);
    assert_eq!(kind_of(&batch()), JobKind::Labels);
}
