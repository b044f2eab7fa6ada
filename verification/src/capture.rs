//! Cutting one window of audio out of what the source delivers.
//!
//! The windower reads nothing itself. It is handed each chunk as it comes,
//! with the milliseconds measured since the response began, and says when
//! the window is full.

use crate::plan::{PlanModel, PlaybackPlan};
use vstd::prelude::*;

verus! {

/// Why a capture was given up.
#[derive(Debug, Clone, Copy, PartialEq, Eq, Structural)]
pub enum TransportCause {
    /// The source could not be reached.
    Connect,
    /// Reading from the source failed.
    Read,
    /// The source closed the stream before the window was full.
    Closed,
    /// The window could not be written to the scratch file.
    Write,
}

/// A capture window as a mathematical value.
pub struct WindowModel {
    pub bytes: Seq<u8>,
    pub duration: nat,
}

/// The bytes of one window, in the order in which the source delivered
/// them, and the milliseconds that the window was meant to span.
#[derive(Debug, PartialEq, Eq)]
pub struct CaptureWindow {
    bytes: Vec<u8>,
    duration: u64,
}

impl View for CaptureWindow {
    type V = WindowModel;

    closed spec fn view(&self) -> WindowModel {
        WindowModel { bytes: self.bytes@, duration: self.duration as nat }
    }
}

impl CaptureWindow {
    /// The captured bytes.
    pub fn bytes(&self) -> (bytes: &[u8])
        ensures
            bytes@ == self@.bytes,
    {
        self.bytes.as_slice()
    }

    /// The milliseconds that the window was meant to span.
    pub fn duration(&self) -> (duration: u64)
        ensures
            duration == self@.duration,
    {
        self.duration
    }
}

/// A windower as a mathematical value.
pub struct WindowerModel {
    /// Whether the window is one segment, taken whole.
    pub segmented: bool,
    /// The milliseconds that the window is meant to span.
    pub cadence: nat,
    /// What has been delivered so far.
    pub buffer: Seq<u8>,
}

/// What a chunk leaves behind.
pub enum CaptureStepModel {
    Pending(WindowerModel),
    Full(WindowModel),
}

impl WindowerModel {
    /// The windower for `plan`, before anything is delivered.
    pub open spec fn fresh(plan: PlanModel) -> WindowerModel {
        WindowerModel { segmented: plan is Segmented, cadence: plan.cadence(), buffer: Seq::empty() }
    }

    /// What `chunk` leaves behind, delivered `elapsed` milliseconds into
    /// the response. The chunk joins the buffer. A stream's window is full once
    /// the cadence has elapsed; a segment's window is never full before the
    /// segment ends.
    pub open spec fn after_chunk(self, chunk: Seq<u8>, elapsed: nat) -> CaptureStepModel {
        let bytes = self.buffer + chunk;
        if !self.segmented && elapsed >= self.cadence {
            CaptureStepModel::Full(WindowModel { bytes, duration: self.cadence })
        } else {
            CaptureStepModel::Pending(WindowerModel { buffer: bytes, ..self })
        }
    }

    /// What the end of the response leaves behind: a segment is then
    /// whole, a stream has broken off.
    pub open spec fn at_end(self) -> Result<WindowModel, TransportCause> {
        if self.segmented {
            Ok(WindowModel { bytes: self.buffer, duration: self.cadence })
        } else {
            Err(TransportCause::Closed)
        }
    }
}

/// The buffer of one capture. It belongs to the iteration that made it.
#[derive(Debug, PartialEq, Eq)]
pub struct Windower {
    segmented: bool,
    cadence: u64,
    buffer: Vec<u8>,
}

impl View for Windower {
    type V = WindowerModel;

    closed spec fn view(&self) -> WindowerModel {
        WindowerModel {
            segmented: self.segmented,
            cadence: self.cadence as nat,
            buffer: self.buffer@,
        }
    }
}

/// What a chunk leaves behind: the windower, to be handed the next chunk,
/// or the full window.
#[derive(Debug, PartialEq, Eq)]
pub enum CaptureStep {
    Pending(Windower),
    Full(CaptureWindow),
}

impl View for CaptureStep {
    type V = CaptureStepModel;

    open spec fn view(&self) -> CaptureStepModel {
        match self {
            CaptureStep::Pending(windower) => CaptureStepModel::Pending(windower@),
            CaptureStep::Full(window) => CaptureStepModel::Full(window@),
        }
    }
}

impl Windower {
    /// The windower for `plan`, with an empty buffer.
    pub fn new(plan: &PlaybackPlan) -> (windower: Windower)
        ensures
            windower@ == WindowerModel::fresh(plan@),
    {
        Windower { segmented: plan.is_segmented(), cadence: plan.cadence(), buffer: Vec::new() }
    }

    /// Takes `chunk`, which the source delivered `elapsed` milliseconds
    /// into the response. No window is let go before its cadence has elapsed, and
    /// none leaves out or reorders a byte that was delivered.
    pub fn on_chunk(self, chunk: &[u8], elapsed: u64) -> (step: CaptureStep)
        ensures
            step@ == self@.after_chunk(chunk@, elapsed as nat),
            step@ is Full ==> elapsed >= self@.cadence,
            step@ matches CaptureStepModel::Full(window) ==> window.bytes == self@.buffer + chunk@,
    {
        let mut buffer = self.buffer;
        buffer.extend_from_slice(chunk);
        proof {
            assert(buffer@ =~= self.buffer@ + chunk@);
        }
        if !self.segmented && elapsed >= self.cadence {
            CaptureStep::Full(CaptureWindow { bytes: buffer, duration: self.cadence })
        } else {
            CaptureStep::Pending(
                Windower { segmented: self.segmented, cadence: self.cadence, buffer },
            )
        }
    }

    /// Takes the end of the response.
    pub fn on_end(self) -> (window: Result<CaptureWindow, TransportCause>)
        ensures
            match self@.at_end() {
                Ok(whole) => window matches Ok(found) && found@ == whole,
                Err(cause) => window == Err::<CaptureWindow, TransportCause>(cause),
            },
    {
        if self.segmented {
            Ok(CaptureWindow { bytes: self.buffer, duration: self.cadence })
        } else {
            Err(TransportCause::Closed)
        }
    }
}

} // verus!
