//! The raster codec boundary: lossless PNG encoding of RGBA frames.
//!
//! Encoding is stateless and deterministic — the same pixel frame always
//! encodes to the same bytes — so the encoder's output is named by the
//! spec function `png_of`, and decoding an encoding is promised to give
//! the original frame back.

use vstd::prelude::*;

use crate::types::{CaptureError, RgbaBuffer};

verus! {

/// The PNG encoding of an RGBA frame: `pixels` holds `4 * width * height`
/// bytes. The encoder's output is a function of these arguments alone.
pub uninterp spec fn png_of(pixels: Seq<u8>, width: u32, height: u32) -> Seq<u8>;

/// A byte sequence that is the PNG encoding of some well-formed frame.
pub open spec fn spec_is_encoding(bytes: Seq<u8>) -> bool {
    exists|b: RgbaBuffer| b.wf() && bytes == #[trigger] png_of(b.pixels@, b.width, b.height)
}

/// Relies on `image::RgbaImage::from_raw` and
/// `image::DynamicImage::write_to` with the PNG format: the encoder is
/// deterministic, so on success the output is `png_of` of the frame; and
/// for an exactly-sized RGBA8 buffer written to an in-memory cursor it
/// succeeds precisely when both dimensions are non-zero (the only
/// encoder-side checks are the zero-width and zero-height ones).
#[verifier::external_body]
fn png_encode_raw(b: &RgbaBuffer) -> (r: Result<Vec<u8>, String>)
    requires
        b.wf(),
    ensures
        r matches Ok(v) ==> v@ == png_of(b.pixels@, b.width, b.height),
        r is Ok <==> (0 < b.width && 0 < b.height),
{
    let img = match image::RgbaImage::from_raw(b.width, b.height, b.pixels.clone()) {
        Some(i) => i,
        None => return Err("pixel buffer does not fit the dimensions".to_string()),
    };
    let mut cur = std::io::Cursor::new(Vec::new());
    match image::DynamicImage::ImageRgba8(img).write_to(&mut cur, image::ImageFormat::Png) {
        Ok(()) => Ok(cur.into_inner()),
        Err(e) => Err(e.to_string()),
    }
}

/// The decoder's result undoes `png_of`: if the input bytes are the
/// encoding of some non-empty well-formed frame, the result is that very
/// frame, with its dimensions.
pub open spec fn spec_decodes(bytes: Seq<u8>, r: Option<RgbaBuffer>) -> bool {
    forall|p: Seq<u8>, w: u32, h: u32|
        (0 < w && 0 < h && p.len() == 4 * (w as int) * (h as int)
            && bytes == #[trigger] png_of(p, w, h))
        ==> (r matches Some(b) && b.width == w && b.height == h && b.pixels@ == p)
}

/// Relies on `image::ImageReader` (with its decoding limits disabled, so
/// no allocation cap fails a frame the encoder could produce) and
/// `image::DynamicImage::to_rgba8`: PNG is lossless for RGBA8, so bytes
/// that are the encoding of a well-formed frame decode back to exactly
/// that frame and those dimensions.
#[verifier::external_body]
fn png_decode_raw(bytes: &Vec<u8>) -> (r: Option<RgbaBuffer>)
    ensures
        r matches Some(b) ==> b.wf(),
        spec_decodes(bytes@, r),
{
    let mut reader = image::ImageReader::new(std::io::Cursor::new(bytes.as_slice()));
    reader.no_limits();
    match reader.with_guessed_format().map(|rd| rd.decode()) {
        Ok(Ok(img)) => {
            let rgba = img.to_rgba8();
            let (width, height) = (rgba.width(), rgba.height());
            Some(RgbaBuffer { pixels: rgba.into_raw(), width, height })
        },
        _ => None,
    }
}

/// Encodes an RGBA frame as one self-describing, lossless PNG image.
/// Encoding succeeds exactly when both dimensions are non-zero (PNG
/// forbids zero-size images); failure is reported as
/// `CaptureError::Encode` with the cause text.
pub fn encode(buf: &RgbaBuffer) -> (r: Result<Vec<u8>, CaptureError>)
    requires
        buf.wf(),
    ensures
        r matches Ok(v) ==> v@ == png_of(buf.pixels@, buf.width, buf.height),
        r is Ok <==> (0 < buf.width && 0 < buf.height),
        r matches Err(e) ==> e is Encode,
{
    match png_encode_raw(buf) {
        Ok(v) => Ok(v),
        Err(s) => Err(CaptureError::Encode(s)),
    }
}

/// Decodes PNG bytes back into an RGBA frame, if they are a valid image.
pub fn decode(bytes: &Vec<u8>) -> (r: Option<RgbaBuffer>)
    ensures
        r matches Some(b) ==> b.wf(),
        spec_decodes(bytes@, r),
{
    png_decode_raw(bytes)
}

/// The codec is lossless: encoding a non-empty well-formed frame
/// succeeds, and decoding the produced bytes yields a frame with the
/// same dimensions and exactly the original pixels.
pub fn codec_round_trip(buf: &RgbaBuffer) -> (r: Option<RgbaBuffer>)
    requires
        buf.wf(),
        0 < buf.width,
        0 < buf.height,
    ensures
        r is Some,
        r matches Some(b) ==> b.width == buf.width && b.height == buf.height && b.pixels@
            == buf.pixels@,
{
    match encode(buf) {
        Ok(v) => decode(&v),
        Err(_) => None,
    }
}

} // verus!
