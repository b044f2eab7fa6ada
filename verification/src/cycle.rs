//! One work cycle: capture a window, store it, recognize it, annotate and
//! publish the result, all within the watchdog's budget.
//!
//! The cycle does no work itself. It says what is to be done next, and is
//! handed what came of it, with the milliseconds that have passed since the
//! cycle began. An event that arrives past the budget finds the watchdog
//! fired. What arrives after the outcome is discarded.

use crate::capture::{
    CaptureStep, CaptureStepModel, CaptureWindow, TransportCause, WindowModel, Windower,
    WindowerModel,
};
use crate::plan::{PlanModel, PlaybackPlan};
use crate::sink::{
    annotate, annotated, json_model, Json, MomentModel, PublishReport, RecognitionResult,
    ResultModel, Timestamp,
};
use crate::station::{StationTarget, TargetModel};
use vstd::prelude::*;

verus! {

/// Which capability turned a window down.
#[derive(Debug, Clone, Copy, PartialEq, Eq, Structural)]
pub enum RecognitionCause {
    /// No signature could be made of the window.
    Fingerprint,
    /// The signature was not recognized.
    Lookup,
}

/// How a work cycle ended.
#[derive(Debug, PartialEq)]
pub enum CycleOutcome {
    Success(RecognitionResult),
    RecognitionFailure(RecognitionCause),
    TransportFailure(TransportCause),
    TimedOut,
}

/// An outcome as a mathematical value.
pub enum OutcomeModel {
    Success(ResultModel),
    RecognitionFailure(RecognitionCause),
    TransportFailure(TransportCause),
    TimedOut,
}

impl View for CycleOutcome {
    type V = OutcomeModel;

    open spec fn view(&self) -> OutcomeModel {
        match self {
            CycleOutcome::Success(result) => OutcomeModel::Success(result@),
            CycleOutcome::RecognitionFailure(cause) => OutcomeModel::RecognitionFailure(*cause),
            CycleOutcome::TransportFailure(cause) => OutcomeModel::TransportFailure(*cause),
            CycleOutcome::TimedOut => OutcomeModel::TimedOut,
        }
    }
}

/// What the cycle is handed.
#[derive(Debug, PartialEq)]
pub enum Event {
    /// The source answered the request.
    Opened,
    /// The source delivered `bytes`, `elapsed` milliseconds into its
    /// response.
    Chunk { bytes: Vec<u8>, elapsed: u64 },
    /// The source ended its response.
    EndOfStream,
    /// The window is in the scratch file, which holds nothing else.
    Stored,
    /// A signature was made of the scratch file.
    Fingerprinted,
    /// The signature was recognized as `track`, at the moment `at`.
    Recognized { track: serde_json::Value, at: Timestamp },
    /// The attempt to deliver the result has ended.
    Published(PublishReport),
    /// The pause is over.
    Rested,
    /// What was asked for last has failed.
    Failed,
    /// Nothing happened but time.
    Tick,
}

/// An event as a mathematical value.
pub enum EventModel {
    Opened,
    Chunk { bytes: Seq<u8>, elapsed: nat },
    EndOfStream,
    Stored,
    Fingerprinted,
    Recognized { track: Json, at: MomentModel },
    Published(PublishReport),
    Rested,
    Failed,
    Tick,
}

impl View for Event {
    type V = EventModel;

    open spec fn view(&self) -> EventModel {
        match self {
            Event::Opened => EventModel::Opened,
            Event::Chunk { bytes, elapsed } => EventModel::Chunk {
                bytes: bytes@,
                elapsed: *elapsed as nat,
            },
            Event::EndOfStream => EventModel::EndOfStream,
            Event::Stored => EventModel::Stored,
            Event::Fingerprinted => EventModel::Fingerprinted,
            Event::Recognized { track, at } => EventModel::Recognized {
                track: json_model(*track),
                at: at@,
            },
            Event::Published(report) => EventModel::Published(*report),
            Event::Rested => EventModel::Rested,
            Event::Failed => EventModel::Failed,
            Event::Tick => EventModel::Tick,
        }
    }
}

/// What the cycle asks for.
#[derive(Debug, PartialEq)]
pub enum Action {
    /// Request `url`. A `whole` resource is read to its end; of a stream,
    /// only what the cycle asks for.
    Open { url: String, whole: bool },
    /// Read the next chunk of the response.
    Read,
    /// Let go of the response, and write the window over the scratch file.
    Store(CaptureWindow),
    /// Make a signature of the scratch file.
    Fingerprint,
    /// Have the signature recognized.
    Recognize,
    /// Send the result, which the cycle holds, to `endpoint`, once.
    Publish { endpoint: String },
    /// Pause for `millis` milliseconds.
    Rest { millis: u64 },
    /// The cycle is over, with this outcome. What is still under way is
    /// dropped.
    Finish(CycleOutcome),
    /// Go on waiting for what is under way.
    Wait,
}

/// An action as a mathematical value.
pub enum ActionModel {
    Open { url: Seq<char>, whole: bool },
    Read,
    Store(WindowModel),
    Fingerprint,
    Recognize,
    Publish { endpoint: Seq<char> },
    Rest { millis: nat },
    Finish(OutcomeModel),
    Wait,
}

impl View for Action {
    type V = ActionModel;

    open spec fn view(&self) -> ActionModel {
        match self {
            Action::Open { url, whole } => ActionModel::Open { url: url@, whole: *whole },
            Action::Read => ActionModel::Read,
            Action::Store(window) => ActionModel::Store(window@),
            Action::Fingerprint => ActionModel::Fingerprint,
            Action::Recognize => ActionModel::Recognize,
            Action::Publish { endpoint } => ActionModel::Publish { endpoint: endpoint@ },
            Action::Rest { millis } => ActionModel::Rest { millis: *millis as nat },
            Action::Finish(outcome) => ActionModel::Finish(outcome@),
            Action::Wait => ActionModel::Wait,
        }
    }
}

/// How far a cycle has come, without what it holds.
#[derive(Debug, Clone, Copy, PartialEq, Eq, Structural)]
pub enum Phase {
    Connecting,
    Capturing,
    Storing,
    Fingerprinting,
    Recognizing,
    Publishing,
    Resting,
    Finished,
}

/// How far a cycle has come, with what it holds there: while capturing the
/// one buffer, from publishing on the one result.
#[derive(Debug, PartialEq)]
enum Stage {
    Connecting,
    Capturing(Windower),
    Storing,
    Fingerprinting,
    Recognizing,
    Publishing(RecognitionResult),
    Resting(RecognitionResult),
    Finished,
}

/// A stage as a mathematical value.
pub enum StageModel {
    Connecting,
    Capturing(WindowerModel),
    Storing,
    Fingerprinting,
    Recognizing,
    Publishing(ResultModel),
    Resting(ResultModel),
    Finished,
}

impl StageModel {
    /// The phase of the stage.
    pub open spec fn phase(self) -> Phase {
        match self {
            StageModel::Connecting => Phase::Connecting,
            StageModel::Capturing(_) => Phase::Capturing,
            StageModel::Storing => Phase::Storing,
            StageModel::Fingerprinting => Phase::Fingerprinting,
            StageModel::Recognizing => Phase::Recognizing,
            StageModel::Publishing(_) => Phase::Publishing,
            StageModel::Resting(_) => Phase::Resting,
            StageModel::Finished => Phase::Finished,
        }
    }
}

impl Phase {
    /// The place of the phase in the order in which a cycle passes
    /// through its phases.
    pub open spec fn rank(self) -> nat {
        match self {
            Phase::Connecting => 0,
            Phase::Capturing => 1,
            Phase::Storing => 2,
            Phase::Fingerprinting => 3,
            Phase::Recognizing => 4,
            Phase::Publishing => 5,
            Phase::Resting => 6,
            Phase::Finished => 7,
        }
    }
}

impl View for Stage {
    type V = StageModel;

    closed spec fn view(&self) -> StageModel {
        match self {
            Stage::Connecting => StageModel::Connecting,
            Stage::Capturing(windower) => StageModel::Capturing(windower@),
            Stage::Storing => StageModel::Storing,
            Stage::Fingerprinting => StageModel::Fingerprinting,
            Stage::Recognizing => StageModel::Recognizing,
            Stage::Publishing(result) => StageModel::Publishing(result@),
            Stage::Resting(result) => StageModel::Resting(result@),
            Stage::Finished => StageModel::Finished,
        }
    }
}

/// A cycle as a mathematical value.
pub struct CycleModel {
    pub stage: StageModel,
    /// The milliseconds that the cycle may take.
    pub budget: nat,
    pub plan: PlanModel,
    /// The station's label, as configured.
    pub label: Seq<char>,
    pub endpoint: Option<Seq<char>>,
    /// What became of the delivery, once it was tried.
    pub report: Option<PublishReport>,
}

impl CycleModel {
    /// What every cycle meets: its plan is valid, and while it captures,
    /// its buffer is the one that its plan calls for.
    pub open spec fn sound(self) -> bool {
        &&& self.plan.valid()
        &&& self.stage matches StageModel::Capturing(windower) ==> windower.segmented == (
        self.plan is Segmented) && windower.cadence == self.plan.cadence()
    }

    /// The cycle for `plan` on behalf of `target`, and its first action:
    /// the source is requested, and the budget is the target's.
    pub open spec fn started(target: TargetModel, plan: PlanModel) -> (CycleModel, ActionModel) {
        (
            CycleModel {
                stage: StageModel::Connecting,
                budget: target.timeout_budget(),
                plan,
                label: target.address,
                endpoint: target.endpoint,
                report: None,
            },
            ActionModel::Open { url: plan.source(), whole: plan is Segmented },
        )
    }

    /// The cycle at `stage`, and what it asks for then.
    pub open spec fn at(self, stage: StageModel, action: ActionModel) -> (CycleModel, ActionModel) {
        (CycleModel { stage, ..self }, action)
    }

    /// The cycle over, with `outcome`.
    pub open spec fn over(self, outcome: OutcomeModel) -> (CycleModel, ActionModel) {
        self.at(StageModel::Finished, ActionModel::Finish(outcome))
    }

    /// What follows once the delivery of `result` has been tried, or was
    /// not called for: after a segment the cycle pauses for the segment's
    /// duration, after a stream it is over. Either way it succeeds.
    pub open spec fn delivered(self, result: ResultModel) -> (CycleModel, ActionModel) {
        if self.plan is Segmented {
            self.at(StageModel::Resting(result), ActionModel::Rest { millis: self.plan.cadence() })
        } else {
            self.over(OutcomeModel::Success(result))
        }
    }

    /// What follows from `event`, handed over `now` milliseconds into the
    /// cycle.
    ///
    /// A cycle that is over stays as it is. Past the budget the watchdog
    /// has fired, whatever the event. Before that, the event that the stage
    /// waits for moves the cycle on, a failure ends it, unless it is the
    /// delivery that failed, and any other event changes nothing.
    pub open spec fn step(self, event: EventModel, now: nat) -> (CycleModel, ActionModel) {
        if self.stage is Finished {
            (self, ActionModel::Wait)
        } else if now > self.budget {
            self.over(OutcomeModel::TimedOut)
        } else {
            match (self.stage, event) {
                (StageModel::Connecting, EventModel::Opened) => self.at(
                    StageModel::Capturing(WindowerModel::fresh(self.plan)),
                    ActionModel::Read,
                ),
                (StageModel::Connecting, EventModel::Failed) => self.over(
                    OutcomeModel::TransportFailure(TransportCause::Connect),
                ),
                (StageModel::Capturing(windower), EventModel::Chunk { bytes, elapsed }) => {
                    match windower.after_chunk(bytes, elapsed) {
                        CaptureStepModel::Pending(more) => self.at(
                            StageModel::Capturing(more),
                            ActionModel::Read,
                        ),
                        CaptureStepModel::Full(window) => self.at(
                            StageModel::Storing,
                            ActionModel::Store(window),
                        ),
                    }
                },
                (StageModel::Capturing(windower), EventModel::EndOfStream) => {
                    match windower.at_end() {
                        Ok(window) => self.at(StageModel::Storing, ActionModel::Store(window)),
                        Err(cause) => self.over(OutcomeModel::TransportFailure(cause)),
                    }
                },
                (StageModel::Capturing(_), EventModel::Failed) => self.over(
                    OutcomeModel::TransportFailure(TransportCause::Read),
                ),
                (StageModel::Storing, EventModel::Stored) => self.at(
                    StageModel::Fingerprinting,
                    ActionModel::Fingerprint,
                ),
                (StageModel::Storing, EventModel::Failed) => self.over(
                    OutcomeModel::TransportFailure(TransportCause::Write),
                ),
                (StageModel::Fingerprinting, EventModel::Fingerprinted) => self.at(
                    StageModel::Recognizing,
                    ActionModel::Recognize,
                ),
                (StageModel::Fingerprinting, EventModel::Failed) => self.over(
                    OutcomeModel::RecognitionFailure(RecognitionCause::Fingerprint),
                ),
                (StageModel::Recognizing, EventModel::Recognized { track, at }) => {
                    let result = annotated(track, self.label, at);
                    match self.endpoint {
                        Some(endpoint) => self.at(
                            StageModel::Publishing(result),
                            ActionModel::Publish { endpoint },
                        ),
                        None => self.delivered(result),
                    }
                },
                (StageModel::Recognizing, EventModel::Failed) => self.over(
                    OutcomeModel::RecognitionFailure(RecognitionCause::Lookup),
                ),
                (StageModel::Publishing(result), EventModel::Published(report)) => (CycleModel {
                    report: Some(report),
                    ..self
                }).delivered(result),
                (StageModel::Publishing(result), EventModel::Failed) => (CycleModel {
                    report: Some(PublishReport::Undelivered),
                    ..self
                }).delivered(result),
                (StageModel::Resting(result), EventModel::Rested) => self.over(
                    OutcomeModel::Success(result),
                ),
                _ => (self, ActionModel::Wait),
            }
        }
    }
}

/// One work cycle. It holds at most one buffer and at most one result, and
/// nothing of any cycle before it.
#[derive(Debug, PartialEq)]
pub struct Cycle {
    stage: Stage,
    budget: u64,
    plan: PlaybackPlan,
    label: String,
    endpoint: Option<String>,
    report: Option<PublishReport>,
}

impl View for Cycle {
    type V = CycleModel;

    closed spec fn view(&self) -> CycleModel {
        CycleModel {
            stage: self.stage@,
            budget: self.budget as nat,
            plan: self.plan@,
            label: self.label@,
            endpoint: self.endpoint.deep_view(),
            report: self.report,
        }
    }
}

impl Cycle {
    #[verifier::type_invariant]
    spec fn well_formed(self) -> bool {
        self@.sound()
    }

    /// Begins the cycle for `plan` on behalf of `target`.
    pub fn start(target: &StationTarget, plan: PlaybackPlan) -> (begun: (Cycle, Action))
        ensures
            (begun.0@, begun.1@) == CycleModel::started(target@, plan@),
    {
        proof {
            use_type_invariant(&plan);
        }
        let action = Action::Open { url: plan.source().to_owned(), whole: plan.is_segmented() };
        let endpoint = match target.endpoint() {
            Some(url) => Some(url.to_owned()),
            None => None,
        };
        let cycle = Cycle {
            stage: Stage::Connecting,
            budget: target.timeout_budget(),
            plan,
            label: target.address().to_owned(),
            endpoint,
            report: None,
        };
        (cycle, action)
    }

    /// The phase that the cycle is in.
    pub fn phase(&self) -> (phase: Phase)
        ensures
            phase == self@.stage.phase(),
            self@.sound(),
    {
        proof {
            use_type_invariant(self);
        }
        match &self.stage {
            Stage::Connecting => Phase::Connecting,
            Stage::Capturing(_) => Phase::Capturing,
            Stage::Storing => Phase::Storing,
            Stage::Fingerprinting => Phase::Fingerprinting,
            Stage::Recognizing => Phase::Recognizing,
            Stage::Publishing(_) => Phase::Publishing,
            Stage::Resting(_) => Phase::Resting,
            Stage::Finished => Phase::Finished,
        }
    }

    /// The milliseconds that the cycle may take.
    pub fn budget(&self) -> (budget: u64)
        ensures
            budget == self@.budget,
    {
        self.budget
    }

    /// The plan that the cycle carries out.
    pub fn plan(&self) -> (plan: &PlaybackPlan)
        ensures
            plan@ == self@.plan,
    {
        &self.plan
    }

    /// The result that is being delivered, while the cycle holds it.
    pub fn result(&self) -> (result: Option<&RecognitionResult>)
        ensures
            match self@.stage {
                StageModel::Publishing(held) => result matches Some(found) && found@ == held,
                StageModel::Resting(held) => result matches Some(found) && found@ == held,
                _ => result is None,
            },
    {
        match &self.stage {
            Stage::Publishing(held) => Some(held),
            Stage::Resting(held) => Some(held),
            _ => None,
        }
    }

    /// What became of the delivery, once it was tried.
    pub fn report(&self) -> (report: Option<PublishReport>)
        ensures
            report == self@.report,
    {
        self.report
    }

    /// Hands `event` to the cycle, `now` milliseconds after it began.
    pub fn step(self, event: Event, now: u64) -> (next: (Cycle, Action))
        ensures
            (next.0@, next.1@) == self@.step(event@, now as nat),
    {
        proof {
            use_type_invariant(&self);
            lemma_cycle_stays_sound(self@, event@, now as nat);
        }
        let Cycle { stage, budget, plan, label, endpoint, report } = self;
        if let Stage::Finished = stage {
            return (Cycle { stage, budget, plan, label, endpoint, report }, Action::Wait);
        }
        if now > budget {
            return (
                Cycle { stage: Stage::Finished, budget, plan, label, endpoint, report },
                Action::Finish(CycleOutcome::TimedOut),
            );
        }
        let mut report = report;
        let (stage, action) = match stage {
            Stage::Connecting => match event {
                Event::Opened => (Stage::Capturing(Windower::new(&plan)), Action::Read),
                Event::Failed => (
                    Stage::Finished,
                    Action::Finish(CycleOutcome::TransportFailure(TransportCause::Connect)),
                ),
                _ => (Stage::Connecting, Action::Wait),
            },
            Stage::Capturing(windower) => match event {
                Event::Chunk { bytes, elapsed } => match windower.on_chunk(
                    bytes.as_slice(),
                    elapsed,
                ) {
                    CaptureStep::Pending(more) => (Stage::Capturing(more), Action::Read),
                    CaptureStep::Full(window) => (Stage::Storing, Action::Store(window)),
                },
                Event::EndOfStream => match windower.on_end() {
                    Ok(window) => (Stage::Storing, Action::Store(window)),
                    Err(cause) => (
                        Stage::Finished,
                        Action::Finish(CycleOutcome::TransportFailure(cause)),
                    ),
                },
                Event::Failed => (
                    Stage::Finished,
                    Action::Finish(CycleOutcome::TransportFailure(TransportCause::Read)),
                ),
                _ => (Stage::Capturing(windower), Action::Wait),
            },
            Stage::Storing => match event {
                Event::Stored => (Stage::Fingerprinting, Action::Fingerprint),
                Event::Failed => (
                    Stage::Finished,
                    Action::Finish(CycleOutcome::TransportFailure(TransportCause::Write)),
                ),
                _ => (Stage::Storing, Action::Wait),
            },
            Stage::Fingerprinting => match event {
                Event::Fingerprinted => (Stage::Recognizing, Action::Recognize),
                Event::Failed => (
                    Stage::Finished,
                    Action::Finish(CycleOutcome::RecognitionFailure(RecognitionCause::Fingerprint)),
                ),
                _ => (Stage::Fingerprinting, Action::Wait),
            },
            Stage::Recognizing => match event {
                Event::Recognized { track, at } => {
                    let result = annotate(track, label.as_str(), &at);
                    match &endpoint {
                        Some(url) => (
                            Stage::Publishing(result),
                            Action::Publish { endpoint: url.clone() },
                        ),
                        None => after_delivery(&plan, result),
                    }
                },
                Event::Failed => (
                    Stage::Finished,
                    Action::Finish(CycleOutcome::RecognitionFailure(RecognitionCause::Lookup)),
                ),
                _ => (Stage::Recognizing, Action::Wait),
            },
            Stage::Publishing(result) => match event {
                Event::Published(told) => {
                    report = Some(told);
                    after_delivery(&plan, result)
                },
                Event::Failed => {
                    report = Some(PublishReport::Undelivered);
                    after_delivery(&plan, result)
                },
                _ => (Stage::Publishing(result), Action::Wait),
            },
            Stage::Resting(result) => match event {
                Event::Rested => (Stage::Finished, Action::Finish(CycleOutcome::Success(result))),
                _ => (Stage::Resting(result), Action::Wait),
            },
            Stage::Finished => (Stage::Finished, Action::Wait),
        };
        (Cycle { stage, budget, plan, label, endpoint, report }, action)
    }
}

/// The stage and the action that follow once the delivery of `result` has
/// been tried, or was not called for.
fn after_delivery(plan: &PlaybackPlan, result: RecognitionResult) -> (next: (Stage, Action))
    ensures
        plan@ is Segmented ==> next.0@ == StageModel::Resting(result@) && next.1@
            == (ActionModel::Rest { millis: plan@.cadence() }),
        !(plan@ is Segmented) ==> next.0@ == StageModel::Finished && next.1@
            == ActionModel::Finish(OutcomeModel::Success(result@)),
{
    if plan.is_segmented() {
        (Stage::Resting(result), Action::Rest { millis: plan.cadence() })
    } else {
        (Stage::Finished, Action::Finish(CycleOutcome::Success(result)))
    }
}

/// A cycle is sound when it begins, and stays so.
pub proof fn lemma_cycle_stays_sound(cycle: CycleModel, event: EventModel, now: nat)
    requires
        cycle.sound(),
    ensures
        cycle.step(event, now).0.sound(),
{
}

/// A cycle for a valid plan is sound when it begins.
pub proof fn lemma_cycle_begins_sound(target: TargetModel, plan: PlanModel)
    requires
        plan.valid(),
    ensures
        CycleModel::started(target, plan).0.sound(),
{
}

/// No cycle stores a window that was meant to span no time, and none
/// pauses for no time.
pub proof fn lemma_spans_are_real(cycle: CycleModel, event: EventModel, now: nat)
    requires
        cycle.sound(),
    ensures
        cycle.step(event, now).1 matches ActionModel::Store(window) ==> window.duration > 0,
        cycle.step(event, now).1 matches ActionModel::Rest { millis } ==> millis > 0,
{
}

/// No window of a stream leaves the cycle before the plan's interval has
/// elapsed, and the window that leaves holds what was delivered, in the
/// order of delivery, and nothing else.
pub proof fn lemma_no_window_before_the_interval(
    cycle: CycleModel,
    bytes: Seq<u8>,
    elapsed: nat,
    now: nat,
)
    requires
        cycle.sound(),
        cycle.plan is Continuous,
    ensures
        cycle.step(EventModel::Chunk { bytes, elapsed }, now).1 matches ActionModel::Store(window)
            ==> {
            &&& elapsed >= cycle.plan.cadence()
            &&& window.duration == cycle.plan.cadence()
            &&& cycle.stage matches StageModel::Capturing(windower)
            &&& window.bytes == windower.buffer + bytes
        },
        elapsed < cycle.plan.cadence() ==> !(cycle.step(EventModel::Chunk { bytes, elapsed }, now).1
            is Store),
{
}

/// A cycle passes through its phases in their order, and enters none
/// twice: whatever is asked for, but to go on reading or waiting, is asked
/// for on the way into a later phase. So each cycle stores at most one
/// window, and tries at most one recognition and one delivery.
pub proof fn lemma_phases_only_advance(cycle: CycleModel, event: EventModel, now: nat)
    ensures
        cycle.step(event, now).0.stage.phase().rank() >= cycle.stage.phase().rank(),
        !(cycle.step(event, now).1 is Wait) && !(cycle.step(event, now).1 is Read) ==> cycle.step(
            event,
            now,
        ).0.stage.phase().rank() > cycle.stage.phase().rank(),
        cycle.step(event, now).1 is Store ==> cycle.step(event, now).0.stage is Storing,
        cycle.step(event, now).1 is Fingerprint ==> cycle.step(event, now).0.stage is Fingerprinting,
        cycle.step(event, now).1 is Recognize ==> cycle.step(event, now).0.stage is Recognizing,
        cycle.step(event, now).1 is Publish ==> cycle.step(event, now).0.stage is Publishing,
        cycle.step(event, now).1 is Rest ==> cycle.step(event, now).0.stage is Resting,
        !(cycle.step(event, now).1 is Open),
{
}

/// The watchdog fires if and only if the cycle is not over by its budget:
/// past the budget every event ends the cycle as timed out, and up to the
/// budget, its last millisecond included, none does.
pub proof fn lemma_watchdog_fires_past_the_budget_only(
    cycle: CycleModel,
    event: EventModel,
    now: nat,
)
    requires
        !(cycle.stage is Finished),
    ensures
        cycle.step(event, now).1 == ActionModel::Finish(OutcomeModel::TimedOut) <==> now
            > cycle.budget,
        now > cycle.budget ==> cycle.step(event, now).0.stage is Finished,
{
}

/// A cycle reports one outcome: the step that finishes it, and no later
/// one. What arrives after the outcome changes nothing and asks for
/// nothing.
pub proof fn lemma_one_outcome(cycle: CycleModel, event: EventModel, now: nat)
    ensures
        cycle.step(event, now).1 is Finish <==> !(cycle.stage is Finished) && cycle.step(
            event,
            now,
        ).0.stage is Finished,
        cycle.stage is Finished ==> cycle.step(event, now) == (cycle, ActionModel::Wait),
{
}

/// No step changes what the cycle was begun with: its budget, its plan,
/// its label and its endpoint.
pub proof fn lemma_step_keeps_the_terms(cycle: CycleModel, event: EventModel, now: nat)
    ensures
        cycle.step(event, now).0.budget == cycle.budget,
        cycle.step(event, now).0.plan == cycle.plan,
        cycle.step(event, now).0.label == cycle.label,
        cycle.step(event, now).0.endpoint == cycle.endpoint,
{
}

/// What becomes of a delivery decides nothing: whether the endpoint
/// answers, with whatever status, or the request fails, the cycle goes on
/// to the same stage with the same action, and within the budget it ends in
/// success.
pub proof fn lemma_delivery_decides_nothing(
    cycle: CycleModel,
    one: PublishReport,
    other: PublishReport,
    now: nat,
)
    requires
        cycle.stage is Publishing,
    ensures
        cycle.step(EventModel::Published(one), now).1 == cycle.step(
            EventModel::Published(other),
            now,
        ).1,
        cycle.step(EventModel::Published(one), now).0.stage == cycle.step(
            EventModel::Published(other),
            now,
        ).0.stage,
        cycle.step(EventModel::Failed, now) == cycle.step(
            EventModel::Published(PublishReport::Undelivered),
            now,
        ),
        now <= cycle.budget ==> (cycle.step(EventModel::Failed, now).1 matches ActionModel::Finish(
            outcome,
        ) ==> outcome is Success),
        now <= cycle.budget ==> !(cycle.step(EventModel::Failed, now).1 is Wait),
{
}

} // verus!
