//! The pure decode step: from a raw captured frame to a canonical RGB image.
//!
//! The byte-level conversion (JPEG, YUV and friends to interleaved RGB) is
//! done by the camera library's decoder; this module pins down everything
//! around it: the outcome is a function of the frame alone, and an image is
//! handed out only when it is well-formed for the frame's resolution.

use vstd::prelude::*;
use crate::errors::DecodeError;
use crate::frame::{DecodedImage, PixelFormat, RawFrame};
use nokhwa::pixel_format::RgbFormat;
use nokhwa::utils::{FrameFormat, Resolution};
use nokhwa::Buffer;
use nokhwa::NokhwaError;

verus! {

/// The RGB byte sequence (or the failure) that the camera library's decoder
/// produces for a raw frame of the given resolution, pixel-format tag and
/// bytes. Decoding is pure, so this is a function of those values alone.
pub uninterp spec fn rgb_decode_of(
    width: u32,
    height: u32,
    format: PixelFormat,
    bytes: Seq<u8>,
) -> Result<Seq<u8>, DecodeError>;

/// Relies on nokhwa's `Buffer::decode_image::<RgbFormat>`: the decode is a
/// pure function of the buffer's resolution, frame format and bytes, and an
/// image it returns carries the resolution the buffer was built with. A
/// format the library was built without is reported as `NotImplementedError`
/// (surfaced as `UnsupportedPixelFormat`); every other failure means the
/// bytes did not form a frame of the tagged layout (`CorruptFrame`).
///
/// The `requires` keeps the frame inside what the decoder's own arithmetic
/// bears: positive dimensions (the planar-YUV path chunks the luma plane
/// into rows of `width` bytes, and chunking by zero panics) whose RGB size
/// fits in `u32` (the decoder sizes its buffers with unchecked 32-bit
/// products of the resolution).
#[verifier::external_body]
fn decode_rgb(frame: &RawFrame) -> (r: Result<DecodedImage, DecodeError>)
    requires
        frame.width > 0,
        frame.height > 0,
        3 * (frame.width as int) * (frame.height as int) <= 0xffff_ffff,
    ensures
        (match r {
            Ok(img) => {
                &&& rgb_decode_of(frame.width, frame.height, frame.format, frame.bytes@)
                    == Ok::<Seq<u8>, DecodeError>(img.pixels@)
                &&& img.width == frame.width
                &&& img.height == frame.height
            },
            Err(e) => rgb_decode_of(frame.width, frame.height, frame.format, frame.bytes@)
                == Err::<Seq<u8>, DecodeError>(e),
        }),
{
    let fmt = match frame.format {
        PixelFormat::MJpeg => FrameFormat::MJPEG,
        PixelFormat::Yuyv => FrameFormat::YUYV,
        PixelFormat::Nv12 => FrameFormat::NV12,
        PixelFormat::Gray => FrameFormat::GRAY,
        PixelFormat::RawRgb => FrameFormat::RAWRGB,
        PixelFormat::RawBgr => FrameFormat::RAWBGR,
    };
    let buf = Buffer::new(Resolution::new(frame.width, frame.height), &frame.bytes, fmt);
    match buf.decode_image::<RgbFormat>() {
        Ok(img) => Ok(DecodedImage { width: frame.width, height: frame.height, pixels: img.into_raw() }),
        Err(NokhwaError::NotImplementedError(_)) => Err(DecodeError::UnsupportedPixelFormat),
        Err(_) => Err(DecodeError::CorruptFrame),
    }
}

/// The canonical decode outcome for a raw frame. A frame whose resolution
/// is not positive, or whose RGB size does not fit in `u32` (no real device
/// delivers one), is corrupt outright and never reaches the decoder; the
/// decoder's bytes are then accepted only when they are exactly three per
/// pixel of that resolution. A decoder failure is passed through unchanged.
pub open spec fn spec_decode(
    width: u32,
    height: u32,
    format: PixelFormat,
    bytes: Seq<u8>,
) -> Result<(u32, u32, Seq<u8>), DecodeError> {
    if width == 0 || height == 0 || 3 * (width as int) * (height as int) > 0xffff_ffff {
        Err(DecodeError::CorruptFrame)
    } else {
        match rgb_decode_of(width, height, format, bytes) {
            Ok(px) => if px.len() == 3 * (width as int) * (height as int) {
                Ok((width, height, px))
            } else {
                Err(DecodeError::CorruptFrame)
            },
            Err(e) => Err(e),
        }
    }
}

/// Decode one raw frame into a canonical RGB image.
///
/// Pure and deterministic: the result is exactly `spec_decode` of the frame's
/// fields, so identical raw bytes and format tag always yield a bit-identical
/// image. On success the image is well-formed: positive dimensions equal to
/// the frame's, and exactly three bytes per pixel. A frame with a zero
/// dimension, or whose RGB size does not fit in `u32`, is rejected as
/// corrupt before the decoder is ever reached.
pub fn decode(frame: &RawFrame) -> (r: Result<DecodedImage, DecodeError>)
    ensures
        (match r {
            Ok(img) => {
                &&& spec_decode(frame.width, frame.height, frame.format, frame.bytes@)
                    == Ok::<(u32, u32, Seq<u8>), DecodeError>((img.width, img.height, img.pixels@))
                &&& img.wf()
            },
            Err(e) => spec_decode(frame.width, frame.height, frame.format, frame.bytes@)
                == Err::<(u32, u32, Seq<u8>), DecodeError>(e),
        }),
{
    proof {
        assert((frame.width as int) * (frame.height as int) < 0x1_0000_0000_0000_0000)
            by (nonlinear_arith)
            requires
                (frame.width as int) < 0x1_0000_0000,
                (frame.height as int) < 0x1_0000_0000,
        ;
    }
    let area: u128 = (frame.width as u128) * (frame.height as u128);
    let size: u128 = 3 * area;
    proof {
        assert(size == 3 * (frame.width as int) * (frame.height as int)) by (nonlinear_arith)
            requires
                area == (frame.width as int) * (frame.height as int),
                size == 3 * area,
        ;
    }
    if frame.width == 0 || frame.height == 0 || size > 0xffff_ffffu128 {
        return Err(DecodeError::CorruptFrame);
    }
    match decode_rgb(frame) {
        Err(e) => Err(e),
        Ok(img) => {
            if (img.pixels.len() as u128) == size {
                Ok(img)
            } else {
                Err(DecodeError::CorruptFrame)
            }
        },
    }
}

/// Law: decoding is deterministic and canonical — the decode outcome is a
/// function of the raw frame's resolution, pixel-format tag and bytes alone,
/// so decoding one frame twice yields bit-identical results; and any decoded
/// image has positive dimensions with exactly three bytes per pixel.
pub proof fn lemma_decode_deterministic(width: u32, height: u32, format: PixelFormat, bytes: Seq<u8>)
    ensures
        spec_decode(width, height, format, bytes) == spec_decode(width, height, format, bytes),
        (spec_decode(width, height, format, bytes) matches Ok(t)
            ==> t.0 > 0 && t.1 > 0 && t.2.len() == 3 * (t.0 as int) * (t.1 as int)),
{
}

} // verus!
