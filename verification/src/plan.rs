//! The playback plan that a station address resolves to, and the ways in
//! which resolution fails.

use vstd::prelude::*;

verus! {

/// Why no plan could be made from a playlist.
#[derive(Debug, Clone, Copy, PartialEq, Eq, Structural)]
pub enum PlaylistError {
    /// The playlist is malformed, or its first entry is: a reference that
    /// cannot be resolved, or a duration that is no span of time.
    ParseError,
    /// The playlist names nothing to play.
    Empty,
    /// The station's address names no playlist of the kind that was to be
    /// read.
    NotAPlaylist,
}

/// A playback plan as a mathematical value. Spans of time are counted in
/// milliseconds.
pub enum PlanModel {
    /// One segment of a media playlist: `leaf` is fetched whole. The
    /// segment plays for `duration`.
    Segmented { leaf: Seq<char>, duration: nat },
    /// An endless stream: `stream` is read for `interval`.
    Continuous { stream: Seq<char>, interval: nat },
}

impl PlanModel {
    /// The address that audio is fetched from.
    pub open spec fn source(self) -> Seq<char> {
        match self {
            PlanModel::Segmented { leaf, .. } => leaf,
            PlanModel::Continuous { stream, .. } => stream,
        }
    }

    /// The milliseconds of audio that one window holds.
    pub open spec fn cadence(self) -> nat {
        match self {
            PlanModel::Segmented { duration, .. } => duration,
            PlanModel::Continuous { interval, .. } => interval,
        }
    }

    /// What every plan meets: its window spans some time.
    pub open spec fn valid(self) -> bool {
        self.cadence() > 0
    }
}

/// How one window of audio is to be had: one segment, fetched whole, or a
/// stream, read for an interval. Made anew for each iteration, never
/// changed once made, and never for a window of no length.
#[derive(Debug, PartialEq, Eq)]
pub struct PlaybackPlan {
    segmented: bool,
    source: String,
    cadence: u64,
}

impl View for PlaybackPlan {
    type V = PlanModel;

    closed spec fn view(&self) -> PlanModel {
        if self.segmented {
            PlanModel::Segmented { leaf: self.source@, duration: self.cadence as nat }
        } else {
            PlanModel::Continuous { stream: self.source@, interval: self.cadence as nat }
        }
    }
}

impl DeepView for PlaybackPlan {
    type V = PlanModel;

    open spec fn deep_view(&self) -> PlanModel {
        self@
    }
}

impl PlaybackPlan {
    /// What holds of every plan that there is: it is valid.
    #[verifier::type_invariant]
    pub open spec fn well_formed(self) -> bool {
        self@.valid()
    }

    /// The plan for the segment at `leaf`, which plays for `duration`
    /// milliseconds. There is no plan for a segment of no length.
    pub fn segmented(leaf: String, duration: u64) -> (plan: Option<PlaybackPlan>)
        ensures
            duration == 0 ==> plan is None,
            duration > 0 ==> (plan matches Some(made) && made@ == (PlanModel::Segmented {
                leaf: leaf@,
                duration: duration as nat,
            })),
    {
        if duration == 0 {
            None
        } else {
            Some(PlaybackPlan { segmented: true, source: leaf, cadence: duration })
        }
    }

    /// The plan for the stream at `stream`, read for `interval`
    /// milliseconds at a time. There is no plan for an interval of no
    /// length.
    pub fn continuous(stream: String, interval: u64) -> (plan: Option<PlaybackPlan>)
        ensures
            interval == 0 ==> plan is None,
            interval > 0 ==> (plan matches Some(made) && made@ == (PlanModel::Continuous {
                stream: stream@,
                interval: interval as nat,
            })),
    {
        if interval == 0 {
            None
        } else {
            Some(PlaybackPlan { segmented: false, source: stream, cadence: interval })
        }
    }

    /// The address that audio is fetched from.
    pub fn source(&self) -> (address: &str)
        ensures
            address@ == self@.source(),
    {
        self.source.as_str()
    }

    /// The milliseconds of audio that one window holds. It is never zero.
    pub fn cadence(&self) -> (millis: u64)
        ensures
            millis == self@.cadence(),
            millis > 0,
    {
        proof {
            use_type_invariant(self);
        }
        self.cadence
    }

    /// Whether the plan is for one segment, fetched whole.
    pub fn is_segmented(&self) -> (segmented: bool)
        ensures
            segmented == (self@ is Segmented),
    {
        self.segmented
    }

    /// A copy of the plan.
    pub fn duplicate(&self) -> (copy: PlaybackPlan)
        ensures
            copy@ == self@,
            copy@.valid(),
    {
        proof {
            use_type_invariant(self);
        }
        PlaybackPlan {
            segmented: self.segmented,
            source: self.source.clone(),
            cadence: self.cadence,
        }
    }
}

} // verus!
