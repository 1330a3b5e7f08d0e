//! Fair wake selection and the deterministic operation state machine.

use vstd::prelude::*;

use crate::incremental::{
    CancelOutcome, IncrementalCompletion, OperationId, OperationLifecycle, OperationStateError,
    OperationTracker, PollDisposition, TrackerModel, WaitSet, WakeReason, WorkReport,
};
use crate::incremental::wait::{BACKEND_BIT, COMMAND_BIT, WAKE_REASONS};
use crate::wifi::BackendError;

verus! {

/// The eligible bits offer this reason.
pub open spec fn offers(eligible: u8, reason: WakeReason) -> bool {
    eligible & reason.mask() != 0
}

/// The first offered reason, looking from position `next` once around the
/// rotation.
pub open spec fn fair_choice(next: int, eligible: u8) -> Option<WakeReason> {
    if offers(eligible, WakeReason::at_position(next)) {
        Some(WakeReason::at_position(next))
    } else if offers(eligible, WakeReason::at_position(next + 1)) {
        Some(WakeReason::at_position(next + 1))
    } else if offers(eligible, WakeReason::at_position(next + 2)) {
        Some(WakeReason::at_position(next + 2))
    } else if offers(eligible, WakeReason::at_position(next + 3)) {
        Some(WakeReason::at_position(next + 3))
    } else {
        None
    }
}

/// Where the rotation continues after a choice: behind the chosen reason.
pub open spec fn next_position(next: int, choice: Option<WakeReason>) -> int {
    match choice {
        Some(reason) => (reason.position() + 1) % 4,
        None => next,
    }
}

/// The choices made over consecutive turns with these eligible bits.
pub open spec fn fair_choices(next: int, eligible: Seq<u8>) -> Seq<Option<WakeReason>>
    decreases eligible.len(),
{
    if eligible.len() == 0 {
        Seq::empty()
    } else {
        let choice = fair_choice(next, eligible[0]);
        seq![choice] + fair_choices(next_position(next, choice), eligible.drop_first())
    }
}

/// Turns that may pass before `reason` has the first claim.
spec fn distance(next: int, reason: WakeReason) -> int {
    (reason.position() - next) % 4
}

proof fn lemma_rotation_approaches(next: int, eligible: u8, reason: WakeReason)
    requires
        0 <= next < 4,
        offers(eligible, reason),
    ensures
        fair_choice(next, eligible) is Some,
        0 <= next_position(next, fair_choice(next, eligible)) < 4,
        fair_choice(next, eligible)->Some_0 == reason || distance(
            next_position(next, fair_choice(next, eligible)),
            reason,
        ) < distance(next, reason),
{
}

proof fn lemma_served_within(next: int, eligible: Seq<u8>, reason: WakeReason)
    requires
        0 <= next < 4,
        eligible.len() > distance(next, reason),
        forall|i: int| 0 <= i < eligible.len() ==> offers(#[trigger] eligible[i], reason),
    ensures
        fair_choices(next, eligible).contains(Some(reason)),
    decreases eligible.len(),
{
    let choice = fair_choice(next, eligible[0]);
    lemma_rotation_approaches(next, eligible[0], reason);
    let rest = fair_choices(next_position(next, choice), eligible.drop_first());
    let all = fair_choices(next, eligible);
    assert(all == seq![choice] + rest);
    if choice == Some(reason) {
        assert(all[0] == Some(reason));
    } else {
        lemma_served_within(next_position(next, choice), eligible.drop_first(), reason);
        let i = choose|i: int| 0 <= i < rest.len() && rest[i] == Some(reason);
        assert(all[i + 1] == Some(reason));
    }
}

/// A source that stays ready is chosen within four turns, whatever else is
/// ready in each of them and wherever the rotation stood.
pub proof fn ready_source_is_served_within_four_turns(
    next: int,
    eligible: Seq<u8>,
    reason: WakeReason,
)
    requires
        0 <= next < 4,
        eligible.len() == 4,
        forall|i: int| 0 <= i < 4 ==> offers(#[trigger] eligible[i], reason),
    ensures
        fair_choices(next, eligible).contains(Some(reason)),
{
    lemma_served_within(next, eligible, reason);
}

/// A choice is always one of the offered reasons, and something is chosen
/// whenever something is offered.
pub proof fn choice_is_offered(next: int, eligible: u8)
    requires
        0 <= next < 4,
    ensures
        fair_choice(next, eligible) matches Some(reason) ==> offers(eligible, reason),
        fair_choice(next, eligible) is None ==> forall|reason: WakeReason|
            !(#[trigger] offers(eligible, reason)),
{
    assert forall|reason: WakeReason| #[trigger] offers(eligible, reason) implies fair_choice(
        next,
        eligible,
    ) is Some by {
        lemma_rotation_approaches(next, eligible, reason);
    }
}

/// Round-robin selector shared by command, backend, L2, and timer work.
#[derive(Debug)]
pub struct FairWakeSelector {
    next: u8,
}

impl FairWakeSelector {
    /// Position of the reason with the first claim.
    pub closed spec fn view(&self) -> int {
        self.next as int
    }

    #[verifier::type_invariant]
    spec fn wf(self) -> bool {
        self.next < WAKE_REASONS
    }

    /// Construct a selector whose first choice is the command plane.
    pub fn new() -> (selector: Self)
        ensures
            selector@ == 0,
    {
        FairWakeSelector { next: 0 }
    }

    /// Select one subscribed ready source and rotate the next preference.
    pub fn select(&mut self, subscribed: WaitSet, ready: WaitSet) -> (choice: Option<WakeReason>)
        ensures
            0 <= old(self)@ < 4,
            choice == fair_choice(old(self)@, subscribed@ & ready@),
            final(self)@ == next_position(old(self)@, choice),
            0 <= final(self)@ < 4,
    {
        proof {
            use_type_invariant(&*self);
        }
        let eligible: u8 = subscribed.bits() & ready.bits();
        let start: u8 = self.next;
        let mut offset: u8 = 0;
        while offset < WAKE_REASONS
            invariant
                start < WAKE_REASONS,
                offset <= WAKE_REASONS,
                self.next == start,
                old(self)@ == start,
                eligible == subscribed@ & ready@,
                forall|k: int|
                    0 <= k < offset ==> !offers(
                        eligible,
                        #[trigger] WakeReason::at_position(start + k),
                    ),
            decreases WAKE_REASONS - offset,
        {
            let index: u8 = (start + offset) % WAKE_REASONS;
            let reason = WakeReason::from_index(index);
            assert(WakeReason::at_position(start + offset) == reason);
            if eligible & reason.bit() != 0 {
                self.next = (index + 1) % WAKE_REASONS;
                proof {
                    assert(offset == 1 || offset == 2 || offset == 3 ==> !offers(
                        eligible,
                        WakeReason::at_position(start + 0),
                    ));
                    assert(offset == 2 || offset == 3 ==> !offers(
                        eligible,
                        WakeReason::at_position(start + 1),
                    ));
                    assert(offset == 3 ==> !offers(
                        eligible,
                        WakeReason::at_position(start + 2),
                    ));
                }
                return Some(reason);
            }
            offset = offset + 1;
        }
        assert(!offers(eligible, WakeReason::at_position(start + 0)));
        assert(!offers(eligible, WakeReason::at_position(start + 1)));
        assert(!offers(eligible, WakeReason::at_position(start + 2)));
        assert(!offers(eligible, WakeReason::at_position(start + 3)));
        None
    }
}

impl Default for FairWakeSelector {
    fn default() -> (selector: Self)
        ensures
            selector@ == 0,
    {
        FairWakeSelector::new()
    }
}

/// Work requested by the deterministic runner core.
#[derive(Clone, Copy, Debug, PartialEq, Eq, Structural)]
pub enum RunnerStep {
    /// No operation is active or a terminal result awaits collection.
    Idle,
    /// None of the subscribed sources is ready yet.
    Waiting(WaitSet),
    /// The command plane gets this fair turn.
    CommandReady(OperationId),
    /// Call [`crate::IncrementalWifiBackend::poll`] once with this reason and budget.
    PollBackend {
        /// Operation to advance.
        operation: OperationId,
        /// Selected singleton wake reason.
        reason: WakeReason,
    },
}

/// Action required after a controller requests cancellation.
#[derive(Clone, Copy, Debug, PartialEq, Eq, Structural)]
pub enum CancelDirective {
    /// A queued request never reached the backend and is already terminal.
    CompleteLocally,
    /// Notify the backend, then continue bounded polling until terminal.
    NotifyBackend,
    /// The same cancellation request was already recorded.
    AlreadyRequested,
}

/// State change accepted from one verified backend report.
#[derive(Clone, Copy, Debug, PartialEq, Eq)]
pub enum RunnerTransition {
    /// The operation remains pending on these wake sources.
    Pending {
        /// Backend reported protocol-visible progress.
        made_progress: bool,
        /// Sources that may make another poll useful.
        wait_for: WaitSet,
    },
    /// The operation used its full budget and must yield before another poll.
    BudgetExhausted {
        /// Backend reported protocol-visible progress.
        made_progress: bool,
        /// Sources that may make another poll useful.
        wait_for: WaitSet,
    },
    /// One successful terminal result was committed.
    Completed(IncrementalCompletion),
    /// Cancellation became terminal.
    Cancelled {
        /// A successful completion arrived after cancellation and was suppressed.
        suppressed_completion: bool,
    },
    /// The backend rejected start or failed during bounded polling.
    Failed {
        /// Lossless backend failure.
        error: BackendError,
        /// Cancellation had already been requested when the backend failed.
        cancellation_pending: bool,
    },
}

/// Rejection of a deterministic runner transition.
#[derive(Clone, Copy, Debug, PartialEq, Eq, Structural)]
pub enum RunnerStateError {
    /// The operation lifecycle rejected the transition.
    Operation(OperationStateError),
    /// A report retained from an older operation generation was presented.
    StaleReport {
        /// Current operation identity.
        expected: OperationId,
        /// Identity carried by the backend report.
        actual: OperationId,
    },
}

impl From<OperationStateError> for RunnerStateError {
    fn from(value: OperationStateError) -> (error: Self) {
        RunnerStateError::Operation(value)
    }
}

impl vstd::std_specs::convert::FromSpecImpl<OperationStateError> for RunnerStateError {
    open spec fn obeys_from_spec() -> bool {
        true
    }

    open spec fn from_spec(value: OperationStateError) -> Self {
        RunnerStateError::Operation(value)
    }
}

/// The operation slot, the rotation, and the subscribed sources.
pub struct RunnerModel {
    /// The operation slot.
    pub tracker: TrackerModel,
    /// Position of the wake reason with the first claim.
    pub next: int,
    /// Sources the current operation waits for.
    pub wait_for: WaitSet,
}

impl RunnerModel {
    /// No operation has ever been queued.
    pub open spec fn idle() -> Self {
        RunnerModel {
            tracker: TrackerModel { generation: 0, current: None },
            next: 0,
            wait_for: WaitSet::of(0),
        }
    }

    /// The backend owns `id`: it accepted the start and no terminal result is
    /// committed.
    pub open spec fn accepted(self, id: OperationId) -> bool {
        self.tracker.lifecycle(id) == Ok::<OperationLifecycle, OperationStateError>(
            OperationLifecycle::Started,
        ) || self.tracker.lifecycle(id) == Ok::<OperationLifecycle, OperationStateError>(
            OperationLifecycle::CancelRequested,
        )
    }

    /// Why a report or failure for `id` is refused, where it is.
    pub open spec fn refusal(self, id: OperationId) -> OperationStateError {
        match self.tracker.lifecycle(id) {
            Ok(_) => OperationStateError::InvalidTransition,
            Err(error) => error,
        }
    }

    /// Cancellation of the current operation has been requested.
    pub open spec fn cancelling(self, id: OperationId) -> bool {
        self.tracker.lifecycle(id) == Ok::<OperationLifecycle, OperationStateError>(
            OperationLifecycle::CancelRequested,
        )
    }

    /// A terminal result for `id` is committed and nothing is waited for.
    pub open spec fn terminal(self, id: OperationId) -> Self {
        RunnerModel {
            tracker: self.tracker.at(id, OperationLifecycle::Terminal),
            wait_for: WaitSet::of(0),
            ..self
        }
    }

    /// An operation that asked to be polled without waiting for any source.
    pub open spec fn runs_immediately(self) -> bool {
        &&& self.wait_for@ == 0
        &&& self.tracker.current matches Some((_, lifecycle)) && (lifecycle
            == OperationLifecycle::Started || lifecycle == OperationLifecycle::CancelRequested)
    }

    /// The next action, given the ready sources.
    pub open spec fn step(self, ready: WaitSet) -> RunnerStep {
        match self.tracker.current {
            None => RunnerStep::Idle,
            Some((operation, lifecycle)) => if lifecycle == OperationLifecycle::Terminal {
                RunnerStep::Idle
            } else if self.runs_immediately() {
                RunnerStep::PollBackend { operation, reason: WakeReason::Backend }
            } else {
                match fair_choice(self.next, self.wait_for@ & ready@) {
                    Some(WakeReason::Command) => RunnerStep::CommandReady(operation),
                    Some(reason) => RunnerStep::PollBackend { operation, reason },
                    None => RunnerStep::Waiting(self.wait_for),
                }
            },
        }
    }

    /// The state after choosing [`Self::step`]: only the rotation may move.
    pub open spec fn stepped(self, ready: WaitSet) -> Self {
        match self.tracker.current {
            None => self,
            Some((_, lifecycle)) => if lifecycle == OperationLifecycle::Terminal
                || self.runs_immediately() {
                self
            } else {
                RunnerModel {
                    next: next_position(
                        self.next,
                        fair_choice(self.next, self.wait_for@ & ready@),
                    ),
                    ..self
                }
            },
        }
    }

    /// The transition that an accepted operation makes on `disposition`.
    pub open spec fn transition(
        self,
        id: OperationId,
        made_progress: bool,
        disposition: PollDisposition,
    ) -> RunnerTransition {
        match disposition {
            PollDisposition::Pending(wait_for) => RunnerTransition::Pending {
                made_progress,
                wait_for,
            },
            PollDisposition::BudgetExhausted(wait_for) => RunnerTransition::BudgetExhausted {
                made_progress,
                wait_for,
            },
            PollDisposition::Complete(completion) => if self.cancelling(id) {
                RunnerTransition::Cancelled { suppressed_completion: true }
            } else {
                RunnerTransition::Completed(completion)
            },
            PollDisposition::Cancelled => RunnerTransition::Cancelled {
                suppressed_completion: false,
            },
        }
    }

    /// The state that an accepted operation leaves on `disposition`.
    pub open spec fn reported(self, id: OperationId, disposition: PollDisposition) -> Self {
        match disposition {
            PollDisposition::Pending(wait_for) => RunnerModel { wait_for, ..self },
            PollDisposition::BudgetExhausted(wait_for) => RunnerModel { wait_for, ..self },
            PollDisposition::Complete(_) => self.terminal(id),
            PollDisposition::Cancelled => self.terminal(id),
        }
    }
}

/// A success that arrives after cancellation was requested is never delivered
/// as a success.
pub proof fn late_success_is_suppressed(
    runner: RunnerModel,
    id: OperationId,
    made_progress: bool,
    disposition: PollDisposition,
)
    requires
        runner.cancelling(id),
    ensures
        !(runner.transition(id, made_progress, disposition) is Completed),
        disposition is Complete ==> runner.transition(id, made_progress, disposition) == (
        RunnerTransition::Cancelled { suppressed_completion: true }),
{
}

/// Chip-neutral state machine for the incremental runner.
///
/// This type neither owns nor calls a backend. The caller executes the returned
/// step, then feeds the bounded report back through [`Self::apply_report`].
#[derive(Debug)]
pub struct IncrementalRunnerState {
    tracker: OperationTracker,
    selector: FairWakeSelector,
    wait_for: WaitSet,
}

impl IncrementalRunnerState {
    /// The operation slot, the rotation, and the subscribed sources.
    pub closed spec fn view(&self) -> RunnerModel {
        RunnerModel {
            tracker: self.tracker@,
            next: self.selector@,
            wait_for: self.wait_for,
        }
    }

    /// Construct an idle runner state.
    pub fn new() -> (runner: Self)
        ensures
            runner@ == RunnerModel::idle(),
    {
        IncrementalRunnerState {
            tracker: OperationTracker::new(),
            selector: FairWakeSelector::new(),
            wait_for: WaitSet::empty(),
        }
    }

    /// Queue one serialized control operation.
    pub fn queue(&mut self, slot: u8) -> (result: Result<OperationId, RunnerStateError>)
        ensures
            match result {
                Ok(id) => {
                    &&& old(self)@.tracker.current is None
                    &&& id == old(self)@.tracker.next_id(slot)
                    &&& final(self)@ == (RunnerModel {
                        tracker: TrackerModel {
                            generation: crate::incremental::next_generation(
                                old(self)@.tracker.generation,
                            ),
                            current: Some((id, OperationLifecycle::Queued)),
                        },
                        wait_for: WaitSet::of(COMMAND_BIT),
                        ..old(self)@
                    })
                },
                Err(error) => {
                    &&& old(self)@.tracker.current is Some
                    &&& error == RunnerStateError::Operation(OperationStateError::Busy)
                    &&& final(self)@ == old(self)@
                },
            },
    {
        match self.tracker.queue(slot) {
            Ok(id) => {
                self.wait_for = WaitSet::command();
                Ok(id)
            },
            Err(error) => Err(RunnerStateError::from(error)),
        }
    }

    /// Record that the backend accepted a queued request.
    pub fn mark_started(&mut self, id: OperationId) -> (result: Result<(), RunnerStateError>)
        ensures
            match old(self)@.tracker.lifecycle(id) {
                Ok(OperationLifecycle::Queued) => {
                    &&& result is Ok
                    &&& final(self)@ == (RunnerModel {
                        tracker: old(self)@.tracker.at(id, OperationLifecycle::Started),
                        wait_for: WaitSet::of(BACKEND_BIT),
                        ..old(self)@
                    })
                },
                _ => {
                    &&& result is Err
                    &&& result->Err_0 == RunnerStateError::Operation(old(self)@.refusal(id))
                    &&& final(self)@ == old(self)@
                },
            },
    {
        match self.tracker.mark_started(id) {
            Ok(()) => {
                self.wait_for = WaitSet::backend();
                Ok(())
            },
            Err(error) => Err(RunnerStateError::from(error)),
        }
    }

    /// Terminalize a queued request after [`crate::IncrementalWifiBackend::start`] fails.
    pub fn reject_start(&mut self, id: OperationId, error: BackendError) -> (result: Result<
        RunnerTransition,
        RunnerStateError,
    >)
        ensures
            match old(self)@.tracker.lifecycle(id) {
                Ok(OperationLifecycle::Queued) => {
                    &&& result is Ok
                    &&& result->Ok_0 == (RunnerTransition::Failed {
                        error,
                        cancellation_pending: false,
                    })
                    &&& final(self)@ == old(self)@.terminal(id)
                },
                _ => {
                    &&& result is Err
                    &&& result->Err_0 == RunnerStateError::Operation(old(self)@.refusal(id))
                    &&& final(self)@ == old(self)@
                },
            },
    {
        match self.tracker.reject_queued(id) {
            Ok(()) => {
                self.wait_for = WaitSet::empty();
                Ok(RunnerTransition::Failed { error, cancellation_pending: false })
            },
            Err(error) => Err(RunnerStateError::from(error)),
        }
    }

    /// Request cancellation without invoking the backend from this state machine.
    pub fn request_cancel(&mut self, id: OperationId) -> (result: Result<
        CancelDirective,
        RunnerStateError,
    >)
        ensures
            match old(self)@.tracker.lifecycle(id) {
                Ok(OperationLifecycle::Queued) => {
                    &&& result is Ok
                    &&& result->Ok_0 == CancelDirective::CompleteLocally
                    &&& final(self)@ == old(self)@.terminal(id)
                },
                Ok(OperationLifecycle::Started) => {
                    &&& result is Ok
                    &&& result->Ok_0 == CancelDirective::NotifyBackend
                    &&& final(self)@ == (RunnerModel {
                        tracker: old(self)@.tracker.at(id, OperationLifecycle::CancelRequested),
                        wait_for: WaitSet::of(old(self)@.wait_for@ | BACKEND_BIT),
                        ..old(self)@
                    })
                },
                Ok(OperationLifecycle::CancelRequested) => {
                    &&& result is Ok
                    &&& result->Ok_0 == CancelDirective::AlreadyRequested
                    &&& final(self)@ == old(self)@
                },
                Ok(OperationLifecycle::Terminal) => {
                    &&& result is Err
                    &&& result->Err_0 == RunnerStateError::Operation(
                        OperationStateError::AlreadyTerminal,
                    )
                    &&& final(self)@ == old(self)@
                },
                Err(error) => {
                    &&& result is Err
                    &&& result->Err_0 == RunnerStateError::Operation(error)
                    &&& final(self)@ == old(self)@
                },
            },
    {
        let lifecycle = match self.tracker.lifecycle(id) {
            Ok(lifecycle) => lifecycle,
            Err(error) => return Err(RunnerStateError::from(error)),
        };
        let outcome = match self.tracker.request_cancel(id) {
            Ok(outcome) => outcome,
            Err(error) => return Err(RunnerStateError::from(error)),
        };
        if outcome == CancelOutcome::AlreadyRequested {
            return Ok(CancelDirective::AlreadyRequested);
        }
        if lifecycle == OperationLifecycle::Queued {
            if let Err(error) = self.tracker.commit_terminal(id) {
                return Err(RunnerStateError::from(error));
            }
            self.wait_for = WaitSet::empty();
            Ok(CancelDirective::CompleteLocally)
        } else {
            self.wait_for = self.wait_for.union(WaitSet::backend());
            Ok(CancelDirective::NotifyBackend)
        }
    }

    /// Choose the next fair action from the currently ready sources.
    pub fn select_step(&mut self, ready: WaitSet) -> (step: RunnerStep)
        ensures
            step == old(self)@.step(ready),
            final(self)@ == old(self)@.stepped(ready),
    {
        proof {
            let bits = self@.wait_for@;
            assert(bits | 0 == bits) by (bit_vector);
            assert(self@.subscribed(0) == self@);
        }
        self.select_step_with(ready, WaitSet::empty())
    }

    /// Choose the next fair action as if the operation also waited for `sources`,
    /// unless it is to be polled at once. The wait set stays as it is.
    pub fn select_step_with(&mut self, ready: WaitSet, sources: WaitSet) -> (step: RunnerStep)
        ensures
            step == old(self)@.subscribed(sources@).step(ready),
            final(self)@ == (RunnerModel {
                wait_for: old(self)@.wait_for,
                ..old(self)@.subscribed(sources@).stepped(ready)
            }),
    {
        let (operation, lifecycle) = match self.tracker.current() {
            None => return RunnerStep::Idle,
            Some(current) => current,
        };
        if lifecycle == OperationLifecycle::Terminal {
            return RunnerStep::Idle;
        }
        let wait_for = if self.wait_for.is_empty() {
            self.wait_for
        } else {
            self.wait_for.union(sources)
        };
        if wait_for.is_empty() && (lifecycle == OperationLifecycle::Started || lifecycle
            == OperationLifecycle::CancelRequested) {
            return RunnerStep::PollBackend { operation, reason: WakeReason::Backend };
        }
        match self.selector.select(wait_for, ready) {
            Some(WakeReason::Command) => RunnerStep::CommandReady(operation),
            Some(reason) => RunnerStep::PollBackend { operation, reason },
            None => RunnerStep::Waiting(wait_for),
        }
    }

    /// Apply one bounded report after a [`RunnerStep::PollBackend`] action.
    pub fn apply_report(&mut self, expected: OperationId, report: WorkReport) -> (result: Result<
        RunnerTransition,
        RunnerStateError,
    >)
        ensures
            if !old(self)@.accepted(expected) {
                &&& result is Err
                &&& result->Err_0 == RunnerStateError::Operation(old(self)@.refusal(expected))
                &&& final(self)@ == old(self)@
            } else if report@.operation != expected {
                &&& result is Err
                &&& result->Err_0 == (RunnerStateError::StaleReport {
                    expected,
                    actual: report@.operation,
                })
                &&& final(self)@ == old(self)@
            } else {
                &&& result is Ok
                &&& result->Ok_0 == old(self)@.transition(
                    expected,
                    report@.made_progress,
                    report@.disposition,
                )
                &&& final(self)@ == old(self)@.reported(expected, report@.disposition)
            },
    {
        match self.tracker.lifecycle(expected) {
            Err(error) => return Err(RunnerStateError::from(error)),
            Ok(OperationLifecycle::Started) | Ok(OperationLifecycle::CancelRequested) => {},
            Ok(_) => return Err(RunnerStateError::from(OperationStateError::InvalidTransition)),
        }
        if report.operation() != expected {
            return Err(RunnerStateError::StaleReport { expected, actual: report.operation() });
        }
        match report.disposition() {
            PollDisposition::Pending(wait_for) => {
                self.wait_for = wait_for;
                Ok(RunnerTransition::Pending { made_progress: report.made_progress(), wait_for })
            },
            PollDisposition::BudgetExhausted(wait_for) => {
                self.wait_for = wait_for;
                Ok(
                    RunnerTransition::BudgetExhausted {
                        made_progress: report.made_progress(),
                        wait_for,
                    },
                )
            },
            PollDisposition::Complete(completion) => {
                let cancelled = match self.tracker.commit_terminal(expected) {
                    Ok(cancelled) => cancelled,
                    Err(error) => return Err(RunnerStateError::from(error)),
                };
                self.wait_for = WaitSet::empty();
                if cancelled {
                    Ok(RunnerTransition::Cancelled { suppressed_completion: true })
                } else {
                    Ok(RunnerTransition::Completed(completion))
                }
            },
            PollDisposition::Cancelled => {
                if let Err(error) = self.tracker.commit_terminal(expected) {
                    return Err(RunnerStateError::from(error));
                }
                self.wait_for = WaitSet::empty();
                Ok(RunnerTransition::Cancelled { suppressed_completion: false })
            },
        }
    }

    /// Terminalize an accepted operation after a backend `poll` or `cancel` error.
    pub fn apply_error(&mut self, expected: OperationId, error: BackendError) -> (result: Result<
        RunnerTransition,
        RunnerStateError,
    >)
        ensures
            if !old(self)@.accepted(expected) {
                &&& result is Err
                &&& result->Err_0 == RunnerStateError::Operation(old(self)@.refusal(expected))
                &&& final(self)@ == old(self)@
            } else {
                &&& result is Ok
                &&& result->Ok_0 == (RunnerTransition::Failed {
                    error,
                    cancellation_pending: old(self)@.cancelling(expected),
                })
                &&& final(self)@ == old(self)@.terminal(expected)
            },
    {
        match self.tracker.lifecycle(expected) {
            Err(error) => return Err(RunnerStateError::from(error)),
            Ok(OperationLifecycle::Started) | Ok(OperationLifecycle::CancelRequested) => {},
            Ok(_) => return Err(RunnerStateError::from(OperationStateError::InvalidTransition)),
        }
        let cancellation_pending = match self.tracker.commit_terminal(expected) {
            Ok(cancelled) => cancelled,
            Err(error) => return Err(RunnerStateError::from(error)),
        };
        self.wait_for = WaitSet::empty();
        Ok(RunnerTransition::Failed { error, cancellation_pending })
    }

    /// Release a collected terminal result so the slot may be reused.
    pub fn reap(&mut self, id: OperationId) -> (result: Result<(), RunnerStateError>)
        ensures
            match old(self)@.tracker.lifecycle(id) {
                Ok(OperationLifecycle::Terminal) => {
                    &&& result is Ok
                    &&& final(self)@ == old(self)@.reaped()
                },
                _ => {
                    &&& result is Err
                    &&& result->Err_0 == RunnerStateError::Operation(old(self)@.refusal(id))
                    &&& final(self)@ == old(self)@
                },
            },
    {
        match self.tracker.reap(id) {
            Ok(()) => {
                self.wait_for = WaitSet::empty();
                Ok(())
            },
            Err(error) => Err(RunnerStateError::from(error)),
        }
    }

    /// Current operation and lifecycle, if any.
    pub fn current(&self) -> (current: Option<(OperationId, OperationLifecycle)>)
        ensures
            current == self@.tracker.current,
    {
        self.tracker.current()
    }

    /// Wake sources subscribed by the current operation.
    pub fn wait_for(&self) -> (wait_for: WaitSet)
        ensures
            wait_for == self@.wait_for,
    {
        self.wait_for
    }
}

impl RunnerModel {
    /// Also waiting for `sources`, unless the operation is to be polled at once.
    pub open spec fn subscribed(self, sources: u8) -> Self {
        if self.wait_for@ == 0 {
            self
        } else {
            RunnerModel { wait_for: WaitSet::of(self.wait_for@ | sources), ..self }
        }
    }

    /// The slot is free again.
    pub open spec fn reaped(self) -> Self {
        RunnerModel {
            tracker: TrackerModel { current: None, ..self.tracker },
            wait_for: WaitSet::of(0),
            ..self
        }
    }
}

impl Default for IncrementalRunnerState {
    fn default() -> (runner: Self)
        ensures
            runner@ == RunnerModel::idle(),
    {
        IncrementalRunnerState::new()
    }
}

/// Among the offered reasons, the one nearest in the rotation is chosen, and it has
/// the last claim afterwards.
pub proof fn nearest_offered_reason_is_chosen(next: int, eligible: u8, other: WakeReason)
    requires
        0 <= next < 4,
        fair_choice(next, eligible) is Some,
    ensures
        ({
            let chosen = fair_choice(next, eligible)->Some_0;
            let after = next_position(next, Some(chosen));
            &&& eligible & chosen.mask() != 0
            &&& eligible & other.mask() != 0 ==> (chosen.position() - next) % 4 <= (
            other.position() - next) % 4
            &&& 0 <= after < 4
            &&& (chosen.position() - after) % 4 == 3
        }),
{
}

/// Nothing is chosen exactly when nothing is offered, and the rotation stays then.
pub proof fn nothing_offered_nothing_chosen(next: int, eligible: u8)
    requires
        0 <= next < 4,
    ensures
        fair_choice(next, eligible) is None <==> {
            &&& eligible & 1 == 0
            &&& eligible & 2 == 0
            &&& eligible & 4 == 0
            &&& eligible & 8 == 0
        },
        next_position(next, None) == next,
{
    choice_is_offered(next, eligible);
    if fair_choice(next, eligible) is None {
        assert(!offers(eligible, WakeReason::Command));
        assert(!offers(eligible, WakeReason::Backend));
        assert(!offers(eligible, WakeReason::L2Rx));
        assert(!offers(eligible, WakeReason::Timer));
    }
}

/// What a step names is what the slot holds: only an operation that is not over is
/// polled or waited for, under its own identity, and choosing a step moves nothing
/// but the rotation.
pub proof fn step_names_the_operation_in_the_slot(runner: RunnerModel, ready: WaitSet)
    ensures
        match runner.step(ready) {
            RunnerStep::Idle => runner.tracker.current matches Some((_, lifecycle))
                ==> lifecycle is Terminal,
            RunnerStep::CommandReady(operation) => {
                &&& runner.tracker.current matches Some((current, _)) && current == operation
                &&& (runner.wait_for@ & ready@) & 1 != 0
            },
            RunnerStep::PollBackend { operation, .. } => runner.tracker.current matches Some(
                (current, lifecycle),
            ) && current == operation && !(lifecycle is Terminal),
            RunnerStep::Waiting(wait_for) => {
                &&& wait_for == runner.wait_for
                &&& runner.tracker.current matches Some((_, lifecycle)) && !(lifecycle is Terminal)
            },
        },
        runner.stepped(ready).tracker == runner.tracker,
        runner.stepped(ready).wait_for == runner.wait_for,
{
}

/// An operation in the backend is polled as its report says: its wake sources are
/// waited for next, a completion or a cancellation ends it, and a success counts as
/// one unless a cancellation was requested before.
pub proof fn report_decides_the_transition(
    runner: RunnerModel,
    id: OperationId,
    lifecycle: OperationLifecycle,
    made_progress: bool,
    disposition: PollDisposition,
)
    requires
        runner.tracker.current == Some((id, lifecycle)),
    ensures
        ({
            let transition = runner.transition(id, made_progress, disposition);
            let after = runner.reported(id, disposition);
            &&& after.next == runner.next
            &&& after.tracker.generation == runner.tracker.generation
            &&& match disposition {
                PollDisposition::Pending(wait_for) => {
                    &&& transition == (RunnerTransition::Pending { made_progress, wait_for })
                    &&& after.wait_for == wait_for
                    &&& after.tracker == runner.tracker
                },
                PollDisposition::BudgetExhausted(wait_for) => {
                    &&& transition == (RunnerTransition::BudgetExhausted {
                        made_progress,
                        wait_for,
                    })
                    &&& after.wait_for == wait_for
                    &&& after.tracker == runner.tracker
                },
                PollDisposition::Complete(completion) => {
                    &&& lifecycle is CancelRequested ==> transition == (
                    RunnerTransition::Cancelled { suppressed_completion: true })
                    &&& !(lifecycle is CancelRequested) ==> transition
                        == RunnerTransition::Completed(completion)
                    &&& after.wait_for@ == 0
                    &&& after.tracker.current == Some((id, OperationLifecycle::Terminal))
                },
                PollDisposition::Cancelled => {
                    &&& transition == (RunnerTransition::Cancelled {
                        suppressed_completion: false,
                    })
                    &&& after.wait_for@ == 0
                    &&& after.tracker.current == Some((id, OperationLifecycle::Terminal))
                },
            }
        }),
{
}

/// What is refused is refused for a reason: an identity that the slot does not hold is
/// stale, and one that it holds is asked for a transition that it cannot make.
pub proof fn refusal_tells_stale_from_invalid(runner: RunnerModel, id: OperationId)
    ensures
        runner.tracker.current matches Some((current, _)) && current == id ==> runner.refusal(id)
            == OperationStateError::InvalidTransition,
        !(runner.tracker.current matches Some((current, _)) && current == id) ==> runner.refusal(id)
            == OperationStateError::Stale,
        runner.accepted(id) <==> (runner.tracker.current matches Some((current, lifecycle))
            && current == id && (lifecycle is Started || lifecycle is CancelRequested)),
        runner.cancelling(id) <==> (runner.tracker.current matches Some((current, lifecycle))
            && current == id && lifecycle is CancelRequested),
{
}

/// One operation from its queueing to its end. It waits for the command turn until
/// the backend accepted it, and for the backend then; a refused start and a failed
/// operation are reported with the backend's error, and the slot is free once the
/// result is collected.
pub proof fn runner_follows_one_operation()
    ensures
        forall|
            slot: &mut IncrementalRunnerState,
            number: u8,
            id: OperationId,
            later: &mut IncrementalRunnerState,
            started: Result<(), RunnerStateError>,
        |
            #[trigger] call_ensures(IncrementalRunnerState::queue, (slot, number), Ok(id))
                && #[trigger] call_ensures(
                IncrementalRunnerState::mark_started,
                (later, id),
                started,
            ) && *later == *final(slot) ==> {
                &&& slot@.tracker.current is None
                &&& final(slot)@.wait_for@ == 1
                &&& started is Ok
                &&& final(later)@.wait_for@ == 2
                &&& final(later)@.tracker.current == Some((id, OperationLifecycle::Started))
                &&& final(later)@.next == slot@.next
            },
        forall|
            slot: &mut IncrementalRunnerState,
            id: OperationId,
            error: BackendError,
            transition: RunnerTransition,
        | #[trigger]
            call_ensures(IncrementalRunnerState::reject_start, (slot, id, error), Ok(transition))
                ==> {
                &&& slot@.tracker.current == Some((id, OperationLifecycle::Queued))
                &&& transition == (RunnerTransition::Failed { error, cancellation_pending: false })
                &&& final(slot)@.tracker.current == Some((id, OperationLifecycle::Terminal))
            },
        forall|
            slot: &mut IncrementalRunnerState,
            id: OperationId,
            error: BackendError,
            transition: RunnerTransition,
            later: &mut IncrementalRunnerState,
            reaped: Result<(), RunnerStateError>,
        |
            #[trigger] call_ensures(
                IncrementalRunnerState::apply_error,
                (slot, id, error),
                Ok(transition),
            ) && #[trigger] call_ensures(IncrementalRunnerState::reap, (later, id), reaped)
                && *later == *final(slot) ==> {
                &&& transition == (RunnerTransition::Failed {
                    error,
                    cancellation_pending: slot@.tracker.current == Some(
                        (id, OperationLifecycle::CancelRequested),
                    ),
                })
                &&& reaped is Ok
                &&& final(later)@.tracker.current is None
                &&& final(later)@.wait_for@ == 0
            },
        forall|
            slot: &mut IncrementalRunnerState,
            id: OperationId,
            directive: CancelDirective,
            later: &mut IncrementalRunnerState,
            again: Result<CancelDirective, RunnerStateError>,
        |
            #[trigger] call_ensures(
                IncrementalRunnerState::request_cancel,
                (slot, id),
                Ok(directive),
            ) && #[trigger] call_ensures(
                IncrementalRunnerState::request_cancel,
                (later, id),
                again,
            ) && *later == *final(slot) ==> {
                &&& slot@.tracker.current == Some((id, OperationLifecycle::Started)) ==> {
                    &&& directive is NotifyBackend
                    &&& again == Ok::<CancelDirective, RunnerStateError>(
                        CancelDirective::AlreadyRequested,
                    )
                    &&& final(slot)@.wait_for@ == slot@.wait_for@ | 2
                }
                &&& slot@.tracker.current == Some((id, OperationLifecycle::Queued)) ==> {
                    &&& directive is CompleteLocally
                    &&& again is Err
                    &&& final(slot)@.tracker.current == Some((id, OperationLifecycle::Terminal))
                }
                &&& final(later)@ == later@
            },
{
}

/// The selector chooses only what is subscribed and ready, and leaves the chosen
/// source last in turn.
pub proof fn selector_chooses_what_is_subscribed_and_ready()
    ensures
        forall|
            slot: &mut FairWakeSelector,
            subscribed: WaitSet,
            ready: WaitSet,
            choice: Option<WakeReason>,
        | #[trigger]
            call_ensures(FairWakeSelector::select, (slot, subscribed, ready), choice) ==> {
                &&& choice matches Some(reason) ==> {
                    &&& (subscribed@ & ready@) & reason.mask() != 0
                    &&& final(slot)@ == (reason.position() + 1) % 4
                }
                &&& choice is None ==> {
                    &&& final(slot)@ == slot@
                    &&& (subscribed@ & ready@) & 1 == 0
                    &&& (subscribed@ & ready@) & 2 == 0
                    &&& (subscribed@ & ready@) & 4 == 0
                    &&& (subscribed@ & ready@) & 8 == 0
                }
            },
{
    assert forall|
        slot: &mut FairWakeSelector,
        subscribed: WaitSet,
        ready: WaitSet,
        choice: Option<WakeReason>,
    | #[trigger]
        call_ensures(FairWakeSelector::select, (slot, subscribed, ready), choice) implies {
        &&& choice matches Some(reason) ==> {
            &&& (subscribed@ & ready@) & reason.mask() != 0
            &&& final(slot)@ == (reason.position() + 1) % 4
        }
        &&& choice is None ==> {
            &&& final(slot)@ == slot@
            &&& (subscribed@ & ready@) & 1 == 0
            &&& (subscribed@ & ready@) & 2 == 0
            &&& (subscribed@ & ready@) & 4 == 0
            &&& (subscribed@ & ready@) & 8 == 0
        }
    } by {
        nothing_offered_nothing_chosen(slot@, subscribed@ & ready@);
        choice_is_offered(slot@, subscribed@ & ready@);
    }
}

} // verus!
