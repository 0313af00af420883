use flowrs_img::decode::decode;
use flowrs_img::errors::DecodeError;
use flowrs_img::frame::{PixelFormat, RawFrame};

fn gray_2x2() -> RawFrame {
    RawFrame { width: 2, height: 2, format: PixelFormat::Gray, bytes: vec![1, 2, 3, 4] }
}

#[test]
fn decode_gray_triples_each_luma_byte() {
    let img = decode(&gray_2x2()).expect("a 2x2 gray frame decodes");
    assert_eq!(img.width, 2);
    assert_eq!(img.height, 2);
    assert_eq!(img.pixels, vec![1, 1, 1, 2, 2, 2, 3, 3, 3, 4, 4, 4]);
}

#[test]
fn decode_raw_rgb_passes_bytes_through() {
    let bytes: Vec<u8> = (0u8..12).collect();
    let frame = RawFrame { width: 2, height: 2, format: PixelFormat::RawRgb, bytes: bytes.clone() };
    let img = decode(&frame).expect("a 2x2 raw RGB frame decodes");
    assert_eq!((img.width, img.height), (2, 2));
    assert_eq!(img.pixels, bytes);
}

#[test]
fn decode_raw_bgr_swaps_channels() {
    let frame = RawFrame { width: 1, height: 1, format: PixelFormat::RawBgr, bytes: vec![10, 20, 30] };
    let img = decode(&frame).expect("a 1x1 raw BGR frame decodes");
    assert_eq!(img.pixels, vec![30, 20, 10]);
}

#[test]
fn decode_is_deterministic_for_a_fixed_frame() {
    let a = decode(&gray_2x2());
    let b = decode(&gray_2x2());
    match (a, b) {
        (Ok(x), Ok(y)) => {
            assert_eq!(x.width, y.width);
            assert_eq!(x.height, y.height);
            assert_eq!(x.pixels, y.pixels);
        }
        _ => panic!("both decodes of the same frame must succeed"),
    }
}

#[test]
fn decode_rejects_truncated_raw_rgb_as_corrupt() {
    let frame = RawFrame { width: 2, height: 2, format: PixelFormat::RawRgb, bytes: vec![0; 5] };
    match decode(&frame) {
        Err(DecodeError::CorruptFrame) => {}
        other => panic!("expected a corrupt-frame error, got {:?}", other),
    }
}

#[test]
fn decode_rejects_oversized_gray_as_corrupt() {
    let frame = RawFrame { width: 2, height: 2, format: PixelFormat::Gray, bytes: vec![0; 5] };
    match decode(&frame) {
        Err(DecodeError::CorruptFrame) => {}
        other => panic!("expected a corrupt-frame error, got {:?}", other),
    }
}

#[test]
fn decode_rejects_misaligned_yuyv_as_corrupt() {
    let frame = RawFrame { width: 2, height: 2, format: PixelFormat::Yuyv, bytes: vec![0; 7] };
    match decode(&frame) {
        Err(DecodeError::CorruptFrame) => {}
        other => panic!("expected a corrupt-frame error, got {:?}", other),
    }
}

#[test]
fn decode_rejects_zero_sized_frame_as_corrupt() {
    let frame = RawFrame { width: 0, height: 0, format: PixelFormat::RawRgb, bytes: vec![] };
    match decode(&frame) {
        Err(DecodeError::CorruptFrame) => {}
        other => panic!("expected a corrupt-frame error, got {:?}", other),
    }
}

#[test]
fn decode_rejects_oversized_resolution_before_the_decoder() {
    // An RGB size beyond u32 never reaches the decoder's 32-bit buffer
    // arithmetic; it is rejected as corrupt up front.
    let frame = RawFrame { width: 65536, height: 65536, format: PixelFormat::Nv12, bytes: vec![] };
    match decode(&frame) {
        Err(DecodeError::CorruptFrame) => {}
        other => panic!("expected a corrupt-frame error, got {:?}", other),
    }
}

#[test]
fn decode_rejects_zero_width_planar_frame_before_the_decoder() {
    // A zero width with an even height would pass the decoder's own size
    // checks and reach a zero-sized row chunking; it is rejected as corrupt
    // up front.
    let frame = RawFrame { width: 0, height: 2, format: PixelFormat::Nv12, bytes: vec![] };
    match decode(&frame) {
        Err(DecodeError::CorruptFrame) => {}
        other => panic!("expected a corrupt-frame error, got {:?}", other),
    }
}

#[test]
fn decode_reports_unbuilt_mjpeg_as_unsupported() {
    let frame = RawFrame { width: 2, height: 2, format: PixelFormat::MJpeg, bytes: vec![0; 12] };
    match decode(&frame) {
        Err(DecodeError::UnsupportedPixelFormat) => {}
        other => panic!("expected an unsupported-pixel-format error, got {:?}", other),
    }
}
