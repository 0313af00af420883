//! Frame data: the raw captured frame and the canonical decoded image.

use vstd::prelude::*;

verus! {

/// The device-native byte layout of a raw frame.
#[derive(Clone, Copy, Debug, PartialEq, Eq, Structural)]
pub enum PixelFormat {
    /// Motion-JPEG: each frame is one JPEG image.
    MJpeg,
    /// Packed YUV 4:2:2, two pixels in four bytes.
    Yuyv,
    /// Planar YUV 4:2:0, a luma plane followed by an interleaved chroma plane.
    Nv12,
    /// One luminance byte per pixel.
    Gray,
    /// Interleaved 8-bit RGB, three bytes per pixel.
    RawRgb,
    /// Interleaved 8-bit BGR, three bytes per pixel.
    RawBgr,
}

/// One captured frame as the device delivered it: an opaque byte buffer
/// tagged with the capture resolution and the device's pixel format.
///
/// Transient: produced and consumed within a single capture cycle, never
/// persisted.
#[derive(Clone, Debug)]
pub struct RawFrame {
    /// Width, in pixels, that the device captured at.
    pub width: u32,
    /// Height, in pixels, that the device captured at.
    pub height: u32,
    /// The byte layout of `bytes`.
    pub format: PixelFormat,
    /// The frame's bytes, in the device-native layout.
    pub bytes: Vec<u8>,
}

/// A canonical decoded image: interleaved 8-bit RGB, row-major, three bytes
/// per pixel. Immutable once produced; ownership moves to the output port.
#[derive(Clone, Debug)]
pub struct DecodedImage {
    /// Width in pixels; positive for a well-formed image.
    pub width: u32,
    /// Height in pixels; positive for a well-formed image.
    pub height: u32,
    /// Exactly `3 * width * height` bytes: one `R, G, B` triple per pixel.
    pub pixels: Vec<u8>,
}

impl DecodedImage {
    /// Well-formedness: positive dimensions and exactly three bytes per
    /// pixel. Every image the decoder hands out satisfies this.
    pub open spec fn wf(self) -> bool {
        &&& self.width > 0
        &&& self.height > 0
        &&& self.pixels@.len() == 3 * (self.width as int) * (self.height as int)
    }
}

} // verus!
