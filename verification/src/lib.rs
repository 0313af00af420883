//! A dataflow node that bridges a physical capture device (a webcam) into a
//! pipeline of typed computation stages.
//!
//! The node's lifecycle is a small state machine: a readiness probe opens the
//! device and validates it with one test capture, and each update cycle
//! captures one raw frame, decodes it into a canonical RGB image, and hands
//! the image to the output port. Device and transport I/O live outside this
//! crate; the lifecycle decisions, the error taxonomy and the decode path are
//! specified and verified here.

pub mod decode;
pub mod errors;
pub mod frame;
pub mod webcam;
