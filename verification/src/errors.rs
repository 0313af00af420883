//! The error taxonomy of the node, one tagged type per layer boundary.
//!
//! Each failure cause is an explicit variant, so a caller can distinguish a
//! device fault from a decode fault from a transport fault without inspecting
//! opaque error text.

use vstd::prelude::*;

verus! {

/// A device could not be opened during the readiness probe.
///
/// Raised only while probing; always fatal to this node instance.
#[derive(Clone, Copy, Debug, PartialEq, Eq, Structural)]
pub enum DeviceError {
    /// No openable device exists at the requested index.
    Unavailable,
    /// The device exists but is held by another user.
    Busy,
    /// The device rejected the requested capture format.
    UnsupportedFormat,
}

/// A per-cycle capture attempt failed.
///
/// `transient` is true when the device reported a condition that may clear on
/// a later cycle (temporarily busy, a timeout) and false when it reported a
/// permanent fault (disconnected); `code` preserves the device library's own
/// error code, so a caller can decide whether to keep scheduling updates.
#[derive(Clone, Copy, Debug, PartialEq, Eq, Structural)]
pub struct CaptureError {
    pub transient: bool,
    pub code: u32,
}

/// The pure decode step rejected a raw frame.
///
/// Never implies a device fault: the node stays `Ready` and may capture again
/// on the next cycle.
#[derive(Clone, Copy, Debug, PartialEq, Eq, Structural)]
pub enum DecodeError {
    /// The frame's pixel-format tag names a layout the decoder does not know.
    UnsupportedPixelFormat,
    /// The bytes do not form a well-formed image in the tagged layout.
    CorruptFrame,
}

/// Delivery of a decoded image to the output port failed.
///
/// Always surfaced to the caller, never retried internally.
#[derive(Clone, Copy, Debug, PartialEq, Eq, Structural)]
pub enum SendError {
    /// No valid destination was reachable at send time.
    NoValidDestination,
    /// The underlying channel was closed.
    Closed,
}

/// The readiness probe failed; the node cannot become `Ready`.
#[derive(Clone, Copy, Debug, PartialEq, Eq, Structural)]
pub enum ReadyError {
    /// The device could not be opened at all.
    Device(DeviceError),
    /// The device opened but the one test capture failed.
    TestCapture(CaptureError),
}

/// An update cycle failed.
#[derive(Clone, Copy, Debug, PartialEq, Eq, Structural)]
pub enum UpdateError {
    /// `update` was invoked while the node was not `Ready`: a call-order
    /// violation by the host, not a device or decode fault.
    Configuration,
    /// The device failed to deliver a frame this cycle.
    Capture(CaptureError),
    /// The captured frame could not be decoded.
    Decode(DecodeError),
    /// The decoded image could not be delivered to the output port.
    Send(SendError),
}

} // verus!
