use vstd::prelude::*;

use image::ImageEncoder;

use crate::fmt::{dec, u64_text};
use crate::frame::{frame_to_rgba_bytes, lemma_rgba_rows_len, rgba_rows, spec_rgba_error};
use crate::types::{CaptureFrame, PeekabooXError, PixelFormat};

verus! {

/// What the `image` crate makes of an encoded image: its width, height and
/// tightly packed RGBA8 pixels; or, when it fails, whether detecting the
/// format failed (`true`) or decoding did (`false`), and the error's text.
pub uninterp spec fn rgba_decoding(bytes: Seq<u8>) -> Result<(u32, u32, Seq<u8>), (bool, Seq<char>)>;

/// The PNG file the `image` crate's encoder writes for tightly packed RGBA8
/// pixels of the given size, or the error's text.
pub uninterp spec fn png_encoding(rgba: Seq<u8>, width: u32, height: u32) -> Result<Seq<u8>, Seq<char>>;

/// `image::ImageReader::new` over the bytes, `with_guessed_format`, `decode`,
/// then `DynamicImage::to_rgba8`, `dimensions` and `into_raw`. The contract
/// claims that the outcome is the named function of the bytes, and that the
/// pixels number width times height, four bytes each: `decode` fills a
/// buffer of the decoder's `total_bytes`, and `to_rgba8` keeps or rebuilds
/// it pixel for pixel. Nothing is said of what the pixels are.
#[verifier::external_body]
fn decode_rgba(bytes: &[u8]) -> (r: Result<(u32, u32, Vec<u8>), (bool, String)>)
    ensures
        match rgba_decoding(bytes@) {
            Ok((w, h, d)) => r matches Ok((rw, rh, rd)) && rw == w && rh == h && rd@ == d
                && rd@.len() == w * h * 4,
            Err((stage, t)) => r matches Err((rs, rt)) && rs == stage && rt@ == t,
        },
{
    let reader = match image::ImageReader::new(std::io::Cursor::new(bytes)).with_guessed_format() {
        Ok(reader) => reader,
        Err(error) => return Err((true, format!("{error}"))),
    };
    match reader.decode() {
        Ok(image) => {
            let rgba = image.to_rgba8();
            let (width, height) = rgba.dimensions();
            Ok((width, height, rgba.into_raw()))
        },
        Err(error) => Err((false, format!("{error}"))),
    }
}

/// `image::codecs::png::PngEncoder::new` over an empty buffer, then
/// `write_image` with the RGBA8 color type. The encoder panics unless the
/// pixels fill the image exactly, which `requires` rules out; the contract
/// claims that the outcome is the named function of the pixels and size.
#[verifier::external_body]
fn encode_rgba_png(rgba: &[u8], width: u32, height: u32) -> (r: Result<Vec<u8>, String>)
    requires
        rgba@.len() == width * height * 4,
    ensures
        match png_encoding(rgba@, width, height) {
            Ok(b) => r matches Ok(v) && v@ == b,
            Err(t) => r matches Err(s) && s@ == t,
        },
{
    let mut output = Vec::new();
    match image::codecs::png::PngEncoder::new(&mut output).write_image(
        rgba,
        width,
        height,
        image::ExtendedColorType::Rgba8,
    ) {
        Ok(()) => Ok(output),
        Err(error) => Err(format!("{error}")),
    }
}

/// Wraps decoded RGBA8 pixels in a frame whose stride is four bytes a pixel.
pub fn capture_frame_from_image(width: u32, height: u32, data: Vec<u8>) -> (frame: CaptureFrame)
    requires
        width * 4 <= u32::MAX,
    ensures
        frame.width == width,
        frame.height == height,
        frame.stride == width * 4,
        frame.format == PixelFormat::Rgba8,
        frame.data@ == data@,
{
    CaptureFrame { width, height, stride: width * 4, format: PixelFormat::Rgba8, data }
}

/// The error text for a decoded image too wide for its stride to fit in `u32`.
pub open spec fn msg_too_wide(width: u32) -> Seq<char> {
    "decoded image width "@ + dec(width as nat) + " does not fit a 32-bit row stride"@
}

/// Decodes an encoded image (PNG, or any format the `image` crate detects)
/// into an RGBA8 frame (see [`rgba_decoding`] and [`capture_frame_from_image`]).
pub fn decode_image_bytes(bytes: &[u8]) -> (r: Result<CaptureFrame, PeekabooXError>)
    ensures
        match rgba_decoding(bytes@) {
            Ok((w, h, d)) => if w * 4 <= u32::MAX {
                r matches Ok(f) && f.width == w && f.height == h && f.stride == w * 4 && f.format
                    == PixelFormat::Rgba8 && f.data@ == d && f.data@.len() == w * h * 4
            } else {
                r matches Err(e) && e.message@ == msg_too_wide(w)
            },
            Err((true, t)) => r matches Err(e) && e.message@ == "failed to detect image format: "@
                + t,
            Err((false, t)) => r matches Err(e) && e.message@ == "failed to decode image bytes: "@
                + t,
        },
{
    match decode_rgba(bytes) {
        Ok((width, height, data)) => {
            if width > u32::MAX / 4 {
                let mut m = String::from_str("decoded image width ");
                let n = u64_text(width as u64);
                m.append(n.as_str());
                m.append(" does not fit a 32-bit row stride");
                return Err(PeekabooXError::new(m));
            }
            Ok(capture_frame_from_image(width, height, data))
        },
        Err((stage, text)) => {
            let mut m = if stage {
                String::from_str("failed to detect image format: ")
            } else {
                String::from_str("failed to decode image bytes: ")
            };
            m.append(text.as_str());
            Err(PeekabooXError::new(m))
        },
    }
}

/// Encodes a frame as PNG: its pixels converted to RGBA (see
/// [`frame_to_rgba_bytes`]), then handed to the PNG encoder (see
/// [`png_encoding`]).
pub fn encode_frame_png(frame: &CaptureFrame) -> (r: Result<Vec<u8>, PeekabooXError>)
    ensures
        match spec_rgba_error(*frame) {
            Some(m) => r matches Err(e) && e.message@ == m,
            None => match png_encoding(rgba_rows(*frame, frame.height as nat), frame.width, frame.height) {
                Ok(b) => r matches Ok(v) && v@ == b,
                Err(t) => r matches Err(e) && e.message@ == "failed to encode frame as PNG: "@ + t,
            },
        },
{
    let rgba = frame_to_rgba_bytes(frame)?;
    proof {
        lemma_rgba_rows_len(*frame, frame.height as nat);
        let h = frame.height as int;
        let w = frame.width as int;
        assert(h * w * 4 == w * h * 4) by (nonlinear_arith);
    }
    match encode_rgba_png(rgba.as_slice(), frame.width, frame.height) {
        Ok(png) => Ok(png),
        Err(text) => {
            let mut m = String::from_str("failed to encode frame as PNG: ");
            m.append(text.as_str());
            Err(PeekabooXError::new(m))
        },
    }
}

} // verus!
