//! One screen capture as a state machine. The caller owns the connection:
//! it performs each action that `step` asks for and hands back what the
//! peer sent, and once collection is over `finish` builds the frame.
use vstd::prelude::*;

use crate::errors::CaptureError;
use crate::frame::{assemble, assembles, Frame, Rect};

verus! {

/// An event from the peer, as a capture reads it.
#[derive(Clone, Debug)]
pub enum PeerEvent {
    /// The peer announces the size of its screen.
    Resolution { width: u16, height: u16 },
    /// New content for one rectangle of the screen.
    Rectangle(Rect),
    /// The peer reports an error.
    Error(String),
    /// Any other event.
    Other,
}

/// What the caller must do after a step.
#[derive(Clone, Debug, PartialEq, Eq)]
pub enum Action {
    /// Ask the peer for a full refresh, then poll for the next event.
    Refresh,
    /// Poll for the next event.
    Poll,
    /// Collection is over: build the frame with `finish`.
    Finish,
    /// The capture has failed with this error.
    Fail(CaptureError),
}

/// Where a capture stands.
#[derive(Clone, Debug, PartialEq, Eq)]
pub enum Phase {
    /// No resolution yet: the first event must announce it.
    AwaitingResolution,
    /// Rectangles are being collected.
    Collecting,
    /// Collection is over.
    Done,
    /// The capture failed.
    Failed(CaptureError),
}

/// The state of one capture call.
pub struct Capture {
    pub phase: Phase,
    /// The frame's size, once known.
    pub resolution: Option<(u16, u16)>,
    /// The rectangles received so far, in order of arrival.
    pub parts: Vec<Rect>,
    /// How long the peer may stay silent before collection ends.
    pub timeout_nanos: u64,
}

/// A capture seen as plain values.
pub struct CaptureView {
    pub phase: Phase,
    pub resolution: Option<(u16, u16)>,
    pub parts: Seq<Rect>,
    pub timeout_nanos: u64,
}

impl View for Capture {
    type V = CaptureView;

    open spec fn view(&self) -> CaptureView {
        CaptureView {
            phase: self.phase,
            resolution: self.resolution,
            parts: self.parts@,
            timeout_nanos: self.timeout_nanos,
        }
    }
}

/// A capture just begun: collecting at once when the caller knows the
/// resolution, else waiting for the peer to announce it.
pub open spec fn started(resolution: Option<(u16, u16)>, timeout_nanos: u64) -> CaptureView {
    CaptureView {
        phase: if resolution is Some {
            Phase::Collecting
        } else {
            Phase::AwaitingResolution
        },
        resolution,
        parts: Seq::empty(),
        timeout_nanos,
    }
}

/// `v` with another phase.
pub open spec fn with_phase(v: CaptureView, phase: Phase) -> CaptureView {
    CaptureView { phase, ..v }
}

/// The state and action after `event` (or no event, with the peer silent
/// for `idle_nanos`) reaches a capture in state `v`.
pub open spec fn next(v: CaptureView, event: Option<PeerEvent>, idle_nanos: u64) -> (
    CaptureView,
    Action,
) {
    match v.phase {
        Phase::AwaitingResolution => match event {
            Some(PeerEvent::Resolution { width, height }) => (
                CaptureView {
                    phase: Phase::Collecting,
                    resolution: Some((width, height)),
                    ..v
                },
                Action::Refresh,
            ),
            _ => (
                with_phase(v, Phase::Failed(CaptureError::NoResolutionFound)),
                Action::Fail(CaptureError::NoResolutionFound),
            ),
        },
        Phase::Collecting => match event {
            Some(PeerEvent::Resolution { width, height }) => (
                CaptureView { resolution: Some((width, height)), ..v },
                Action::Refresh,
            ),
            Some(PeerEvent::Rectangle(r)) => (
                CaptureView { parts: v.parts.push(r), ..v },
                Action::Poll,
            ),
            Some(PeerEvent::Error(msg)) => (
                with_phase(v, Phase::Failed(CaptureError::Peer(msg))),
                Action::Fail(CaptureError::Peer(msg)),
            ),
            Some(PeerEvent::Other) => (with_phase(v, Phase::Done), Action::Finish),
            None => if idle_nanos >= v.timeout_nanos {
                (with_phase(v, Phase::Done), Action::Finish)
            } else {
                (v, Action::Poll)
            },
        },
        Phase::Done => (v, Action::Finish),
        Phase::Failed(e) => (v, Action::Fail(e)),
    }
}

/// The error that finishing a capture in state `v` gives, if any: the one
/// it failed with, or the missing resolution.
pub open spec fn finish_error(v: CaptureView) -> Option<CaptureError> {
    match v.phase {
        Phase::Failed(e) => Some(e),
        _ => match v.resolution {
            None => Some(CaptureError::NoResolutionFound),
            Some(_) => None,
        },
    }
}

/// A capture given no resolution whose first event from the peer is not a
/// resolution fails with `NoResolutionFound`: it holds no rectangle, and
/// finishing it yields that error and no frame.
pub proof fn lemma_no_resolution_no_frame(
    timeout_nanos: u64,
    event: Option<PeerEvent>,
    idle_nanos: u64,
)
    requires
        !(event matches Some(PeerEvent::Resolution { .. })),
    ensures
        ({
            let (v, a) = next(started(None, timeout_nanos), event, idle_nanos);
            &&& a == Action::Fail(CaptureError::NoResolutionFound)
            &&& v.parts.len() == 0
            &&& finish_error(v) == Some(CaptureError::NoResolutionFound)
        }),
{
}

/// The same error.
fn copy_error(e: &CaptureError) -> (r: CaptureError)
    ensures
        r == *e,
{
    match e {
        CaptureError::NoResolutionFound => CaptureError::NoResolutionFound,
        CaptureError::MalformedRectangle => CaptureError::MalformedRectangle,
        CaptureError::FrameSizeMismatch => CaptureError::FrameSizeMismatch,
        CaptureError::FrameTooLarge => CaptureError::FrameTooLarge,
        CaptureError::Peer(msg) => CaptureError::Peer(msg.clone()),
    }
}

impl Capture {
    /// Begin a capture. `resolution` is the frame's size when the caller
    /// knows it; without it the peer's first event must announce it.
    /// Before anything else the caller asks the peer for a full refresh.
    pub fn new(resolution: Option<(u16, u16)>, timeout_nanos: u64) -> (c: Capture)
        ensures
            c@ == started(resolution, timeout_nanos),
    {
        let phase = match resolution {
            Some(_) => Phase::Collecting,
            None => Phase::AwaitingResolution,
        };
        let c = Capture { phase, resolution, parts: Vec::new(), timeout_nanos };
        assert(c@.parts =~= Seq::<Rect>::empty());
        c
    }

    /// Take in what the last poll returned: `event`, or nothing with the
    /// peer silent for `idle_nanos` since its last event. While the
    /// resolution is awaited, the event is the one the peer sent first.
    pub fn step(&mut self, event: Option<PeerEvent>, idle_nanos: u64) -> (a: Action)
        ensures
            (final(self)@, a) == next(old(self)@, event, idle_nanos),
    {
        match self.phase {
            Phase::AwaitingResolution => match event {
                Some(PeerEvent::Resolution { width, height }) => {
                    self.resolution = Some((width, height));
                    self.phase = Phase::Collecting;
                    Action::Refresh
                },
                _ => {
                    self.phase = Phase::Failed(CaptureError::NoResolutionFound);
                    Action::Fail(CaptureError::NoResolutionFound)
                },
            },
            Phase::Collecting => match event {
                Some(PeerEvent::Resolution { width, height }) => {
                    self.resolution = Some((width, height));
                    Action::Refresh
                },
                Some(PeerEvent::Rectangle(r)) => {
                    self.parts.push(r);
                    Action::Poll
                },
                Some(PeerEvent::Error(msg)) => {
                    self.phase = Phase::Failed(CaptureError::Peer(msg.clone()));
                    Action::Fail(CaptureError::Peer(msg))
                },
                Some(PeerEvent::Other) => {
                    self.phase = Phase::Done;
                    Action::Finish
                },
                None => {
                    if idle_nanos >= self.timeout_nanos {
                        self.phase = Phase::Done;
                        Action::Finish
                    } else {
                        Action::Poll
                    }
                },
            },
            Phase::Done => Action::Finish,
            Phase::Failed(ref e) => Action::Fail(copy_error(e)),
        }
    }

    /// Build the captured frame from the rectangles collected, written over
    /// a blank frame, or alpha-blended over `previous` when one is given.
    /// A failed capture, or one that never learnt its resolution, yields
    /// its error and no frame.
    pub fn finish(&self, previous: Option<&Frame>) -> (r: Result<Frame, CaptureError>)
        ensures
            match finish_error(self@) {
                Some(e) => r == Err::<Frame, CaptureError>(e),
                None => assembles(
                    r,
                    self.resolution.unwrap().0,
                    self.resolution.unwrap().1,
                    self.parts@,
                    previous,
                ),
            },
    {
        if let Phase::Failed(ref e) = self.phase {
            return Err(copy_error(e));
        }
        match self.resolution {
            None => Err(CaptureError::NoResolutionFound),
            Some((width, height)) => assemble(width, height, &self.parts, previous),
        }
    }
}

} // verus!
