//! The loop around the work cycles: each iteration resolves the station's
//! address, runs one cycle under the watchdog, and goes round again,
//! however the iteration ended.

use crate::address::resolved_reference;
use crate::capture::TransportCause;
use crate::cycle::{Action, Cycle, CycleModel, CycleOutcome};
use crate::manifest::ManifestModel;
use crate::plan::{PlanModel, PlaybackPlan, PlaylistError};
use crate::resolver::{begun, manifest_outcome, resolve, Resolution, ResolutionModel};
use crate::station::{AddressKind, StationTarget, TargetModel};
use vstd::prelude::*;

verus! {

/// How an iteration ended.
#[derive(Debug, PartialEq)]
pub enum IterationEnd {
    /// No plan could be made of what was fetched.
    Unresolved(PlaylistError),
    /// A playlist could not be fetched.
    Unfetched(TransportCause),
    /// The work cycle ran, and ended so.
    Settled(CycleOutcome),
}

/// A supervisor as a mathematical value.
pub struct SupervisorModel {
    pub target: TargetModel,
    /// The plan of the latest cycle, if there was one.
    pub plan: Option<PlanModel>,
}

impl SupervisorModel {
    /// How the next iteration begins. The plan of a direct address is made
    /// once and used again; a playlist address is resolved from the target
    /// alone, as if for the first time.
    pub open spec fn next_resolution(self) -> ResolutionModel {
        match self.plan {
            Some(plan) if self.target.kind() == AddressKind::Direct => ResolutionModel::Resolved(
                plan,
            ),
            _ => begun(self.target),
        }
    }
}

/// The state that lasts from one iteration to the next: the target, and
/// the plan of the latest cycle.
#[derive(Debug, PartialEq)]
pub struct Supervisor {
    target: StationTarget,
    plan: Option<PlaybackPlan>,
}

impl View for Supervisor {
    type V = SupervisorModel;

    closed spec fn view(&self) -> SupervisorModel {
        SupervisorModel { target: self.target@, plan: self.plan.deep_view() }
    }
}

impl Supervisor {
    /// The supervisor of `target`, before its first iteration.
    pub fn new(target: StationTarget) -> (supervisor: Supervisor)
        ensures
            supervisor@ == (SupervisorModel { target: target@, plan: None }),
    {
        Supervisor { target, plan: None }
    }

    /// The target that is supervised.
    pub fn target(&self) -> (target: &StationTarget)
        ensures
            target@ == self@.target,
    {
        &self.target
    }

    /// The plan of the latest cycle.
    pub fn plan(&self) -> (plan: Option<&PlaybackPlan>)
        ensures
            plan.deep_view() == self@.plan,
    {
        match &self.plan {
            Some(held) => Some(held),
            None => None,
        }
    }

    /// Begins an iteration: says where its resolution stands.
    pub fn begin_iteration(&self) -> (resolution: Resolution)
        ensures
            resolution@ == self@.next_resolution(),
            resolution@ matches ResolutionModel::Resolved(plan) ==> plan.cadence() > 0,
    {
        match &self.plan {
            Some(held) => match self.target.kind() {
                AddressKind::Direct => Resolution::Resolved(held.duplicate()),
                _ => resolve(&self.target),
            },
            None => resolve(&self.target),
        }
    }

    /// Begins the work cycle of this iteration, for `plan`. The watchdog's
    /// budget is the target's, whatever the plan.
    pub fn start(&mut self, plan: PlaybackPlan) -> (begun: (Cycle, Action))
        ensures
            final(self)@ == (SupervisorModel { target: old(self)@.target, plan: Some(plan@) }),
            (begun.0@, begun.1@) == CycleModel::started(old(self)@.target, plan@),
    {
        self.plan = Some(plan.duplicate());
        Cycle::start(&self.target, plan)
    }

    /// Goes round again after an iteration that ended with `ended`:
    /// whatever the end was, the next iteration begins, and begins as
    /// every iteration does.
    pub fn resume(&self, ended: &IterationEnd) -> (resolution: Resolution)
        ensures
            resolution@ == self@.next_resolution(),
            resolution@ matches ResolutionModel::Resolved(plan) ==> plan.cadence() > 0,
    {
        let _ = ended;
        self.begin_iteration()
    }
}

/// A playlist address is resolved anew in every iteration. Whatever plan
/// the iteration before has left, the next resolution begins at the
/// target's own address; and the leaf that it ends in is the one that the
/// playlist of this iteration names, so that two playlists that name
/// different leaves give different plans.
pub proof fn lemma_playlists_are_resolved_anew(
    target: TargetModel,
    left: Option<PlanModel>,
    earlier: ManifestModel,
    later: ManifestModel,
    url: Seq<char>,
    depth: nat,
)
    requires
        target.kind() != AddressKind::Direct,
    ensures
        (SupervisorModel { target, plan: left }).next_resolution() == begun(target),
        begun(target) is NeedManifest || begun(target) is NeedRedirect,
        ({
            &&& manifest_outcome(earlier, url, depth) matches ResolutionModel::Resolved(old_plan)
            &&& manifest_outcome(later, url, depth) matches ResolutionModel::Resolved(new_plan)
        }) ==> ({
            &&& manifest_outcome(earlier, url, depth) matches ResolutionModel::Resolved(old_plan)
            &&& manifest_outcome(later, url, depth) matches ResolutionModel::Resolved(new_plan)
            &&& earlier matches ManifestModel::Media { segments: old_segments }
            &&& later matches ManifestModel::Media { segments: new_segments }
            &&& resolved_reference(old_segments[0].uri, url) == Some(old_plan.source())
            &&& resolved_reference(new_segments[0].uri, url) == Some(new_plan.source())
            &&& resolved_reference(old_segments[0].uri, url) != resolved_reference(
                new_segments[0].uri,
                url,
            ) ==> old_plan != new_plan
        }),
{
}

} // verus!
