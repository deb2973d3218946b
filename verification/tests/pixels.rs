use quickcap::buffer::{CaptureResult, PixelBuffer};
use quickcap::frame::has_packed_len;
use quickcap::pixels::{bgra_to_rgba_opaque, reorder_chunk, BYTES_PER_PIXEL};
use quickcap::text::{decimal_string, push_decimal, push_signed_decimal};
use quickcap::{CaptureError, Frame};

#[test]
fn one_pixel_is_reordered_and_made_opaque() {
    let mut data: Vec<u8> = vec![10, 20, 30, 0];
    bgra_to_rgba_opaque(&mut data);
    assert_eq!(data, vec![30, 20, 10, 255]);
}

#[test]
fn every_pixel_of_a_buffer_is_reordered() {
    let mut data: Vec<u8> = vec![1, 2, 3, 4, 5, 6, 7, 8, 9, 10, 11, 12];
    bgra_to_rgba_opaque(&mut data);
    assert_eq!(data, vec![3, 2, 1, 255, 7, 6, 5, 255, 11, 10, 9, 255]);
}

#[test]
fn bytes_after_the_last_whole_pixel_stay() {
    let mut data: Vec<u8> = vec![1, 2, 3, 4, 5, 6, 7];
    bgra_to_rgba_opaque(&mut data);
    assert_eq!(data, vec![3, 2, 1, 255, 5, 6, 7]);
    let mut short: Vec<u8> = vec![9, 8, 7];
    bgra_to_rgba_opaque(&mut short);
    assert_eq!(short, vec![9, 8, 7]);
    let mut empty: Vec<u8> = Vec::new();
    bgra_to_rgba_opaque(&mut empty);
    assert!(empty.is_empty());
}

#[test]
fn a_large_buffer_is_reordered_throughout() {
    let pixels: usize = 100_000;
    let mut data: Vec<u8> = Vec::with_capacity(pixels * BYTES_PER_PIXEL);
    for i in 0..pixels {
        data.push((i % 251) as u8);
        data.push((i % 241) as u8);
        data.push((i % 239) as u8);
        data.push(0);
    }
    bgra_to_rgba_opaque(&mut data);
    for i in 0..pixels {
        assert_eq!(data[4 * i], (i % 239) as u8);
        assert_eq!(data[4 * i + 1], (i % 241) as u8);
        assert_eq!(data[4 * i + 2], (i % 251) as u8);
        assert_eq!(data[4 * i + 3], 255);
    }
}

#[test]
fn a_chunk_that_is_no_pixel_is_left_alone() {
    let mut pixel = [10u8, 20, 30, 40];
    reorder_chunk(&mut pixel);
    assert_eq!(pixel, [30, 20, 10, 255]);
    let mut other = [1u8, 2, 3];
    reorder_chunk(&mut other);
    assert_eq!(other, [1, 2, 3]);
}

#[test]
fn frame_from_bgra_reorders_and_checks_the_length() {
    let frame = Frame::from_bgra(vec![10, 20, 30, 0, 40, 50, 60, 7], 2, 1).unwrap();
    assert_eq!(frame, Frame { data: vec![30, 20, 10, 255, 60, 50, 40, 255], width: 2, height: 1 });
    assert!(frame.is_packed());
    let empty = Frame::from_bgra(Vec::new(), 0, 5).unwrap();
    assert_eq!(empty, Frame { data: Vec::new(), width: 0, height: 5 });
    assert_eq!(
        Frame::from_bgra(vec![1, 2, 3, 4], 2, 1),
        Err(CaptureError::ImageProcessingError(String::from(
            "Buffer length does not match the frame size"
        )))
    );
    assert_eq!(
        Frame::from_bgra(vec![1, 2, 3, 4, 5], 1, 1),
        Err(CaptureError::ImageProcessingError(String::from(
            "Buffer length does not match the frame size"
        )))
    );
}

#[test]
fn packed_length_is_four_bytes_a_pixel() {
    assert!(has_packed_len(0, 0, 0));
    assert!(has_packed_len(1920 * 1080 * 4, 1920, 1080));
    assert!(!has_packed_len(1920 * 1080 * 4 - 1, 1920, 1080));
    assert!(!has_packed_len(0, 4294967295, 4294967295));
    assert!(!Frame { data: vec![0; 3], width: 1, height: 1 }.is_packed());
}

fn padded_result() -> CaptureResult {
    // two rows of two pixels, twelve bytes a row: four bytes of padding each
    let bytes: Vec<u8> = vec![
        1, 2, 3, 4, 5, 6, 7, 8, 90, 91, 92, 93, //
        11, 12, 13, 14, 15, 16, 17, 18, 94, 95, 96, 97,
    ];
    CaptureResult {
        pixel_buffer: PixelBuffer { bytes, width: 2, height: 2, bytes_per_row: 12 },
        width: 2,
        height: 2,
        native_id: 1,
        show_cursor: true,
    }
}

#[test]
fn lock_gives_the_rows_with_their_padding() {
    let result = padded_result();
    assert_eq!(result.bytes_per_row(), 12);
    let guard = result.lock_for_read().unwrap();
    assert_eq!(guard.width(), 2);
    assert_eq!(guard.height(), 2);
    assert_eq!(guard.bytes_per_row(), 12);
    assert_eq!(guard.as_slice().len(), 24);
    assert_eq!(guard.as_slice(), result.pixel_buffer.bytes.as_slice());
    assert_eq!(result.to_vec().unwrap(), result.pixel_buffer.bytes);
}

#[test]
fn lock_reads_no_further_than_the_rows() {
    let mut result = padded_result();
    result.pixel_buffer.bytes.push(200);
    result.pixel_buffer.bytes.push(201);
    assert_eq!(result.to_vec().unwrap().len(), 24);
    assert_eq!(result.to_vec().unwrap(), result.pixel_buffer.bytes[..24].to_vec());
}

#[test]
fn lock_fails_on_a_buffer_that_is_too_short() {
    let mut result = padded_result();
    result.pixel_buffer.bytes.pop();
    let expected =
        CaptureError::ImageProcessingError(String::from("Lock failed: buffer is shorter than its rows"));
    assert_eq!(result.lock_for_read().err(), Some(expected.clone()));
    assert_eq!(result.to_vec(), Err(expected.clone()));
    assert_eq!(result.to_frame(), Err(expected.clone()));
    let mut huge = padded_result();
    huge.height = usize::MAX;
    assert_eq!(huge.to_vec(), Err(expected));
}

#[test]
fn to_frame_drops_the_padding_and_reorders() {
    let frame = padded_result().to_frame().unwrap();
    assert_eq!(
        frame,
        Frame {
            data: vec![3, 2, 1, 4, 7, 6, 5, 8, 13, 12, 11, 14, 17, 16, 15, 18],
            width: 2,
            height: 2,
        }
    );
    assert!(frame.is_packed());
}

#[test]
fn to_frame_fails_on_rows_shorter_than_the_width() {
    let mut result = padded_result();
    result.width = 4;
    assert_eq!(
        result.to_frame(),
        Err(CaptureError::ImageProcessingError(String::from("Frame layout is not valid")))
    );
    let mut wide = padded_result();
    wide.width = usize::MAX;
    assert_eq!(
        wide.to_frame(),
        Err(CaptureError::ImageProcessingError(String::from("Frame layout is not valid")))
    );
}

#[test]
fn to_frame_of_an_empty_image_is_empty() {
    let result = CaptureResult {
        pixel_buffer: PixelBuffer { bytes: Vec::new(), width: 0, height: 0, bytes_per_row: 0 },
        width: 0,
        height: 0,
        native_id: 3,
        show_cursor: false,
    };
    assert_eq!(result.to_frame(), Ok(Frame { data: Vec::new(), width: 0, height: 0 }));
}

#[test]
fn decimal_numerals() {
    assert_eq!(decimal_string(0), "0");
    assert_eq!(decimal_string(7), "7");
    assert_eq!(decimal_string(10), "10");
    assert_eq!(decimal_string(1920), "1920");
    assert_eq!(decimal_string(1234567890), "1234567890");
    assert_eq!(decimal_string(u64::MAX), "18446744073709551615");
    let mut text = String::from("w=");
    push_decimal(&mut text, 1080);
    assert_eq!(text, "w=1080");
}

#[test]
fn signed_decimal_numerals() {
    let mut text = String::new();
    push_signed_decimal(&mut text, -1920);
    text.push(',');
    push_signed_decimal(&mut text, 0);
    text.push(',');
    push_signed_decimal(&mut text, 42);
    text.push(',');
    push_signed_decimal(&mut text, i64::MIN);
    text.push(',');
    push_signed_decimal(&mut text, i64::MAX);
    assert_eq!(text, "-1920,0,42,-9223372036854775808,9223372036854775807");
}
