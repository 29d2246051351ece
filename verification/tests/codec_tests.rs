//! Tests of the PNG codec boundary: losslessness, self-description, and
//! failure on invalid input.

use screencap::codec::{codec_round_trip, decode, encode};
use screencap::types::{CaptureError, RgbaBuffer};

fn frame_2x2() -> RgbaBuffer {
    RgbaBuffer {
        pixels: vec![
            255, 0, 0, 255, 0, 255, 0, 255, 0, 0, 255, 255, 10, 20, 30, 40,
        ],
        width: 2,
        height: 2,
    }
}

#[test]
fn encode_produces_png_bytes() {
    let bytes = encode(&frame_2x2()).expect("encoding a small frame succeeds");
    // The output is a self-describing PNG stream.
    assert!(bytes.len() > 8);
    assert_eq!(&bytes[0..4], &[0x89u8, 0x50, 0x4e, 0x47]);
}

#[test]
fn png_round_trip_restores_pixels() {
    let buf = frame_2x2();
    let bytes = encode(&buf).expect("encoding a small frame succeeds");
    let back = decode(&bytes).expect("decoding our own encoding succeeds");
    assert_eq!(back.width, 2);
    assert_eq!(back.height, 2);
    assert_eq!(back.pixels, buf.pixels);
}

#[test]
fn codec_round_trip_is_lossless() {
    let buf = frame_2x2();
    let back = codec_round_trip(&buf).expect("round trip of a small frame succeeds");
    assert_eq!(back.width, buf.width);
    assert_eq!(back.height, buf.height);
    assert_eq!(back.pixels, buf.pixels);

    let one = RgbaBuffer { pixels: vec![7, 8, 9, 10], width: 1, height: 1 };
    let back = codec_round_trip(&one).expect("round trip of one pixel succeeds");
    assert_eq!(back.pixels, vec![7, 8, 9, 10]);
}

#[test]
fn encoded_bytes_decode_with_the_image_crate() {
    // Cross-check against the codec crate directly: the encoder's output
    // is a real PNG holding exactly the original pixels.
    let buf = frame_2x2();
    let bytes = encode(&buf).expect("encoding a small frame succeeds");
    let img = image::load_from_memory(&bytes).expect("the bytes parse as an image").to_rgba8();
    assert_eq!(img.width(), 2);
    assert_eq!(img.height(), 2);
    assert_eq!(img.into_raw(), buf.pixels);
}

#[test]
fn encode_rejects_empty_dimensions() {
    let empty = RgbaBuffer { pixels: Vec::new(), width: 0, height: 0 };
    match encode(&empty) {
        Err(CaptureError::Encode(_)) => {}
        Err(_) => panic!("only an encode error can come out of encode"),
        Ok(_) => panic!("a zero-size image must not encode"),
    }
}

#[test]
fn decode_rejects_garbage() {
    assert!(decode(&vec![1u8, 2, 3, 4, 5]).is_none());
    assert!(decode(&Vec::new()).is_none());
}
