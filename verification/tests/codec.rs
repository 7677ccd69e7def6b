use image::ImageEncoder;
use peekaboox::codec::{capture_frame_from_image, decode_image_bytes, encode_frame_png};
use peekaboox::types::{CaptureFrame, PixelFormat};

fn decodes_png() {
    let mut png = Vec::new();
    image::codecs::png::PngEncoder::new(&mut png)
        .write_image(&[1, 2, 3, 4], 1, 1, image::ExtendedColorType::Rgba8)
        .unwrap();

    let frame = decode_image_bytes(&png).unwrap();

    assert_eq!(frame.width, 1);
    assert_eq!(frame.height, 1);
    assert_eq!(frame.stride, 4);
    assert_eq!(frame.data, vec![1, 2, 3, 4]);
}

#[test]
fn lib_decodes_png_bytes_to_rgba_frame() {
    decodes_png();
}

#[test]
fn tests_decodes_png_bytes_to_rgba_frame() {
    decodes_png();
}

#[test]
fn png_round_trip_converts_pixels_to_rgba() {
    let frame = CaptureFrame {
        width: 2,
        height: 1,
        stride: 8,
        format: PixelFormat::Bgra8,
        data: vec![1, 2, 3, 4, 5, 6, 7, 8],
    };
    let png = encode_frame_png(&frame).unwrap();
    assert_eq!(&png[1..4], b"PNG");

    let decoded = decode_image_bytes(&png).unwrap();
    assert_eq!(decoded.width, 2);
    assert_eq!(decoded.height, 1);
    assert_eq!(decoded.stride, 8);
    assert_eq!(decoded.format, PixelFormat::Rgba8);
    assert_eq!(decoded.data, vec![3, 2, 1, 4, 7, 6, 5, 8]);
}

#[test]
fn png_encoding_refuses_invalid_frames() {
    let frame = CaptureFrame {
        width: 0,
        height: 1,
        stride: 0,
        format: PixelFormat::Rgba8,
        data: vec![],
    };
    let error = encode_frame_png(&frame).unwrap_err();
    assert_eq!(error.message(), "PNG encode source frame dimensions must be greater than zero");
}

#[test]
fn undecodable_bytes_are_reported() {
    let error = decode_image_bytes(b"definitely not an image").unwrap_err();
    assert!(error.message().starts_with("failed to decode image bytes: "));

    let mut png = Vec::new();
    image::codecs::png::PngEncoder::new(&mut png)
        .write_image(&[1, 2, 3, 4], 1, 1, image::ExtendedColorType::Rgba8)
        .unwrap();
    png.truncate(20);
    let error = decode_image_bytes(&png).unwrap_err();
    assert!(error.message().starts_with("failed to decode image bytes: "));
}

#[test]
fn rgba_frames_have_four_bytes_a_pixel() {
    let frame = capture_frame_from_image(3, 2, vec![0; 24]);
    assert_eq!(frame.stride, 12);
    assert_eq!(frame.format, PixelFormat::Rgba8);
    assert_eq!(frame.data.len(), 24);
}
