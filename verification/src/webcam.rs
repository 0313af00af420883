//! The node lifecycle controller: the sole state machine of this system.
//!
//! The host graph owns the device and the transport; this module owns every
//! decision between them. The readiness probe is a transition on the outcome
//! of the one-time device sequence (open, then one test capture), and each
//! update cycle runs through an explicit guard, the pure decode step, and
//! the send outcome. A caller that respects the guards performs device I/O
//! only when the node is `Ready`.

use vstd::prelude::*;
use crate::decode::{decode, spec_decode};
use crate::errors::{CaptureError, DeviceError, ReadyError, SendError, UpdateError};
use crate::frame::{DecodedImage, RawFrame};

verus! {

/// Which capture format the device is asked to open with.
#[derive(Clone, Copy, Debug, PartialEq, Eq, Structural)]
pub enum RequestedFormatKind {
    /// The highest frame rate the device offers.
    HighestFrameRate,
    /// The highest resolution the device offers.
    HighestResolution,
    /// An exact width, height and frame rate; the device may reject it.
    Exact { width: u32, height: u32, frame_rate: u32 },
}

/// Static configuration of one webcam node, supplied at construction.
#[derive(Clone, Copy, Debug, PartialEq, Eq, Structural)]
pub struct WebcamNodeConfig {
    /// Index of the physical device to open.
    pub device_index: u32,
    /// The capture format requested at open time.
    pub format: RequestedFormatKind,
}

/// The lifecycle state of the node.
#[derive(Clone, Copy, Debug, PartialEq, Eq, Structural)]
pub enum NodeState {
    /// No device handle yet: the readiness probe has not concluded.
    Uninitialized,
    /// A device handle is present and was validated by one test capture.
    Ready,
    /// The readiness probe failed permanently, with the recorded failure.
    /// There is no automatic recovery: reinitialization means discarding the
    /// node and probing afresh.
    Failed(ReadyError),
}

/// What the device sequence of one readiness probe came to. The caller that
/// owns the device opens it and, if that succeeded, attempts exactly one
/// test capture; this is the record of how far it got.
#[derive(Clone, Debug)]
pub enum ProbeOutcome {
    /// The device could not be opened at all.
    OpenFailed(DeviceError),
    /// The device opened, but the one test capture failed.
    TestCaptureFailed(CaptureError),
    /// The device opened and delivered a test frame. The frame is discarded,
    /// never forwarded downstream: it only proves the device can deliver.
    TestCaptured(RawFrame),
}

/// The probe transition: from a lifecycle state and a probe outcome to the
/// next state and the probe's answer.
///
/// From `Uninitialized`: an open failure surfaces the device error and keeps
/// the node `Uninitialized` (the probe may be re-run); a test-capture failure
/// is fatal, recording the wrapped capture error in `Failed`; a delivered
/// test frame makes the node `Ready`. A probe that has concluded repeats its
/// answer: `Ready` stays `Ready` with `Ok`, `Failed` stays `Failed` with the
/// recorded error.
pub open spec fn probe_transition(s: NodeState, outcome: ProbeOutcome) -> (NodeState, Result<
    (),
    ReadyError,
>) {
    match s {
        NodeState::Uninitialized => match outcome {
            ProbeOutcome::OpenFailed(e) => (
                NodeState::Uninitialized,
                Err(ReadyError::Device(e)),
            ),
            ProbeOutcome::TestCaptureFailed(e) => (
                NodeState::Failed(ReadyError::TestCapture(e)),
                Err(ReadyError::TestCapture(e)),
            ),
            ProbeOutcome::TestCaptured(_) => (NodeState::Ready, Ok(())),
        },
        NodeState::Ready => (NodeState::Ready, Ok(())),
        NodeState::Failed(e) => (NodeState::Failed(e), Err(e)),
    }
}

/// The capture-to-decode transition of one update cycle: a capture failure
/// surfaces as a capture error, and a captured frame surfaces its canonical
/// decode outcome, a decode failure tagged as such.
pub open spec fn capture_transition(capture: Result<RawFrame, CaptureError>) -> Result<
    (u32, u32, Seq<u8>),
    UpdateError,
> {
    match capture {
        Err(e) => Err(UpdateError::Capture(e)),
        Ok(raw) => match spec_decode(raw.width, raw.height, raw.format, raw.bytes@) {
            Ok(t) => Ok(t),
            Err(de) => Err(UpdateError::Decode(de)),
        },
    }
}

/// The node lifecycle controller. It owns the lifecycle state and every
/// decision of the probe and of the update cycle; the device handle itself
/// and the output transport are owned by the caller, which reports their
/// outcomes and performs the one action each guard allows.
pub struct WebcamNode {
    config: WebcamNodeConfig,
    lifecycle: NodeState,
}

impl WebcamNode {
    /// The lifecycle state, for contracts.
    pub closed spec fn state(self) -> NodeState {
        self.lifecycle
    }

    /// The configuration, for contracts.
    pub closed spec fn spec_config(self) -> WebcamNodeConfig {
        self.config
    }

    /// Create a node for the given configuration. No device is touched; the
    /// node starts `Uninitialized`.
    pub fn new(config: WebcamNodeConfig) -> (node: Self)
        ensures
            node.state() == NodeState::Uninitialized,
            node.spec_config() == config,
    {
        WebcamNode { config, lifecycle: NodeState::Uninitialized }
    }

    /// The current lifecycle state.
    pub fn current_state(&self) -> (s: NodeState)
        ensures
            s == self.state(),
    {
        self.lifecycle
    }

    /// The configuration the node was created with.
    pub fn config(&self) -> (c: WebcamNodeConfig)
        ensures
            c == self.spec_config(),
    {
        self.config
    }

    /// True exactly when the readiness probe still has to run. Only then may
    /// the caller open the device on the node's behalf; once the probe has
    /// concluded, `probe` repeats its answer without any device work.
    pub fn needs_probe(&self) -> (r: bool)
        ensures
            r == (self.state() == NodeState::Uninitialized),
    {
        self.lifecycle == NodeState::Uninitialized
    }

    /// Record the outcome of the readiness probe's device sequence and
    /// return the probe's answer: exactly `probe_transition` of the current
    /// state and the outcome.
    ///
    /// A node that opened but could not deliver a test frame is rejected
    /// here, fail-fast, rather than discovered dead after cycles of silence;
    /// the open device handle (kept by the caller) is only valid while the
    /// answer is `Ok`. A concluded probe is idempotent: probing a `Ready`
    /// node returns `Ok` again, probing a `Failed` node repeats the recorded
    /// error, and neither moves the state.
    pub fn probe(&mut self, outcome: ProbeOutcome) -> (r: Result<(), ReadyError>)
        ensures
            (final (self).state(), r) == probe_transition(old(self).state(), outcome),
            final (self).spec_config() == old(self).spec_config(),
    {
        match self.lifecycle {
            NodeState::Uninitialized => match outcome {
                ProbeOutcome::OpenFailed(e) => Err(ReadyError::Device(e)),
                ProbeOutcome::TestCaptureFailed(e) => {
                    self.lifecycle = NodeState::Failed(ReadyError::TestCapture(e));
                    Err(ReadyError::TestCapture(e))
                },
                ProbeOutcome::TestCaptured(_) => {
                    self.lifecycle = NodeState::Ready;
                    Ok(())
                },
            },
            NodeState::Ready => Ok(()),
            NodeState::Failed(e) => Err(e),
        }
    }

    /// The standing answer of the readiness probe: nothing while the probe
    /// has not concluded, `Ok` once `Ready`, and the recorded error once
    /// `Failed`. A caller repeats a concluded probe's answer from here
    /// without touching any device.
    pub fn probe_status(&self) -> (r: Option<Result<(), ReadyError>>)
        ensures
            r == (match self.state() {
                NodeState::Uninitialized => None::<Result<(), ReadyError>>,
                NodeState::Ready => Some(Ok::<(), ReadyError>(())),
                NodeState::Failed(e) => Some(Err::<(), ReadyError>(e)),
            }),
    {
        match self.lifecycle {
            NodeState::Uninitialized => None,
            NodeState::Ready => Some(Ok(())),
            NodeState::Failed(e) => Some(Err(e)),
        }
    }

    /// The guard of one update cycle: `Ok` exactly when the node is `Ready`,
    /// and `ConfigurationError` in any other state — a call-order violation
    /// by the host, distinguished from every device or decode fault.
    ///
    /// The guard takes no device outcome and borrows the node immutably, so a
    /// caller that captures only after an `Ok` performs zero device I/O when
    /// the node is not `Ready`.
    pub fn begin_update(&self) -> (r: Result<(), UpdateError>)
        ensures
            r == (if self.state() == NodeState::Ready {
                Ok::<(), UpdateError>(())
            } else {
                Err::<(), UpdateError>(UpdateError::Configuration)
            }),
    {
        if self.lifecycle == NodeState::Ready {
            Ok(())
        } else {
            Err(UpdateError::Configuration)
        }
    }

    /// Turn the capture outcome of one cycle into the cycle's decode result:
    /// a capture failure is surfaced as `UpdateError::Capture`; a captured
    /// frame goes through the pure decoder, whose failure is surfaced as
    /// `UpdateError::Decode` and whose image is handed back for sending.
    ///
    /// The node is borrowed immutably: neither failure moves the lifecycle
    /// state, so the node stays `Ready` and may capture again next cycle.
    pub fn process_capture(&self, capture: Result<RawFrame, CaptureError>) -> (r: Result<
        DecodedImage,
        UpdateError,
    >)
        requires
            self.state() == NodeState::Ready,
        ensures
            (match r {
                Ok(img) => {
                    &&& capture_transition(capture) == Ok::<(u32, u32, Seq<u8>), UpdateError>(
                        (img.width, img.height, img.pixels@),
                    )
                    &&& img.wf()
                },
                Err(ue) => capture_transition(capture) == Err::<(u32, u32, Seq<u8>), UpdateError>(
                    ue,
                ),
            }),
    {
        match capture {
            Err(e) => Err(UpdateError::Capture(e)),
            Ok(raw) => match decode(&raw) {
                Ok(img) => Ok(img),
                Err(de) => Err(UpdateError::Decode(de)),
            },
        }
    }

    /// Close one update cycle with the transport's send answer: a delivered
    /// send closes the cycle with `Ok`; a send failure is surfaced as
    /// `UpdateError::Send`, never swallowed and never retried by the node.
    pub fn finish_update(&self, sent: Result<(), SendError>) -> (r: Result<(), UpdateError>)
        requires
            self.state() == NodeState::Ready,
        ensures
            r == (match sent {
                Ok(u) => Ok::<(), UpdateError>(u),
                Err(e) => Err::<(), UpdateError>(UpdateError::Send(e)),
            }),
    {
        match sent {
            Ok(u) => Ok(u),
            Err(e) => Err(UpdateError::Send(e)),
        }
    }
}

/// Law: a probe whose device never opened surfaces that device error, and
/// the node is left `Uninitialized` — never `Ready`.
pub proof fn lemma_probe_open_failure(s: NodeState, e: DeviceError)
    requires
        s == NodeState::Uninitialized,
    ensures
        ({
            let (s2, r) = probe_transition(s, ProbeOutcome::OpenFailed(e));
            &&& s2 == NodeState::Uninitialized
            &&& s2 != NodeState::Ready
            &&& r == Err::<(), ReadyError>(ReadyError::Device(e))
        }),
{
}

/// Law: the probe concludes at most once, and a concluded probe is
/// idempotent. A successful probe moves the node to `Ready` exactly once;
/// any further probe, whatever its outcome, leaves the state unchanged and
/// repeats the first answer.
pub proof fn lemma_probe_idempotent(s: NodeState, o1: ProbeOutcome, o2: ProbeOutcome)
    ensures
        ({
            let (s1, r1) = probe_transition(s, o1);
            let (s2, r2) = probe_transition(s1, o2);
            s1 != NodeState::Uninitialized ==> (s2 == s1 && r2 == r1)
        }),
{
}

/// Law: against a deterministic device, update cycles repeat. When every
/// capture yields the same raw frame — two cycles' frames agree in
/// resolution, format tag and bytes — and that frame decodes at all, the
/// decode step of every cycle concludes `Ok` with the same well-formed
/// image: positive dimensions, exactly three bytes per pixel, bit-identical
/// across cycles. `finish_update` then closes each such cycle with `Ok`
/// once the transport delivers the send. A device whose fixed frame does
/// not decode repeats the identical decode error instead.
pub proof fn lemma_deterministic_device_cycles(f1: RawFrame, f2: RawFrame)
    requires
        f1.width == f2.width,
        f1.height == f2.height,
        f1.format == f2.format,
        f1.bytes@ == f2.bytes@,
        spec_decode(f1.width, f1.height, f1.format, f1.bytes@) is Ok,
    ensures
        capture_transition(Ok(f1)) is Ok,
        capture_transition(Ok(f1)) == capture_transition(Ok(f2)),
        (capture_transition(Ok(f1)) matches Ok(t) ==> t.0 > 0 && t.1 > 0 && t.2.len() == 3 * (
        t.0 as int) * (t.1 as int)),
{
}

} // verus!
