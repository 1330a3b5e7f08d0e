//! Composition of command ownership, operation lifecycle, and a backend.

use vstd::multiset::Multiset;
use vstd::prelude::*;

use crate::incremental::command::{ActiveCommand, ArbiterModel};
use crate::incremental::runner::RunnerModel;
use crate::incremental::wait::{BACKEND_BIT, TIMER_BIT};
use crate::incremental::{
    CancelDirective, CommandArbiter, CommandArbiterAction, CommandArbiterError, CommandSequence,
    IncrementalCall, IncrementalCompletion, IncrementalRequest, IncrementalRunnerState,
    IncrementalWaitIntent, IncrementalWifiBackend, OperationId, OperationLifecycle, PendingCommand,
    RunnerStateError, RunnerStep, RunnerTransition, SubmitError, TrackerModel, WaitSet, WakeReason,
    WorkBudget, WorkReport,
};
use crate::wifi::{BackendError, ScanResult};

verus! {

/// Internal protocol failure while composing the incremental runner pieces.
#[derive(Clone, Copy, Debug, PartialEq, Eq, Structural)]
pub enum IncrementalDriverError {
    /// The operation lifecycle rejected an unexpected transition.
    Runner(RunnerStateError),
    /// Active/pending command ownership rejected an unexpected transition.
    Arbiter(CommandArbiterError),
}

impl From<RunnerStateError> for IncrementalDriverError {
    fn from(value: RunnerStateError) -> (error: Self) {
        IncrementalDriverError::Runner(value)
    }
}

impl vstd::std_specs::convert::FromSpecImpl<RunnerStateError> for IncrementalDriverError {
    open spec fn obeys_from_spec() -> bool {
        true
    }

    open spec fn from_spec(value: RunnerStateError) -> Self {
        IncrementalDriverError::Runner(value)
    }
}

impl From<CommandArbiterError> for IncrementalDriverError {
    fn from(value: CommandArbiterError) -> (error: Self) {
        IncrementalDriverError::Arbiter(value)
    }
}

impl vstd::std_specs::convert::FromSpecImpl<CommandArbiterError> for IncrementalDriverError {
    open spec fn obeys_from_spec() -> bool {
        true
    }

    open spec fn from_spec(value: CommandArbiterError) -> Self {
        IncrementalDriverError::Arbiter(value)
    }
}

/// One bounded, externally observable driver transition.
#[derive(Clone, Copy, Debug, PartialEq, Eq)]
pub enum IncrementalDriverEvent {
    /// No active or queued operation exists.
    Idle,
    /// The backend accepted this operation.
    Started {
        /// Controller sequence that owns the operation.
        sequence: CommandSequence,
        /// Generation-tagged backend identity.
        operation: OperationId,
    },
    /// Cancellation was delivered to the active backend exactly once.
    CancelRequested {
        /// Controller sequence being cancelled.
        sequence: CommandSequence,
        /// Generation-tagged backend identity.
        operation: OperationId,
    },
    /// No subscribed wake source is currently ready.
    Waiting {
        /// Active controller sequence.
        sequence: CommandSequence,
        /// Generation-tagged backend identity.
        operation: OperationId,
        /// Wake sources that may make progress.
        wait_for: WaitSet,
    },
    /// One bounded poll made progress but remains pending.
    Pending {
        /// Active controller sequence.
        sequence: CommandSequence,
        /// Generation-tagged backend identity.
        operation: OperationId,
        /// Whether protocol-visible state changed.
        made_progress: bool,
        /// Wake sources subscribed for the next poll.
        wait_for: WaitSet,
    },
    /// One bounded poll consumed its complete work grant.
    BudgetExhausted {
        /// Active controller sequence.
        sequence: CommandSequence,
        /// Generation-tagged backend identity.
        operation: OperationId,
        /// Whether protocol-visible state changed.
        made_progress: bool,
        /// Wake sources subscribed for the next poll.
        wait_for: WaitSet,
    },
    /// The active request completed successfully.
    Completed {
        /// Controller sequence receiving the completion.
        sequence: CommandSequence,
        /// Typed backend result.
        completion: IncrementalCompletion,
    },
    /// Cancellation reached a terminal state.
    Cancelled {
        /// Controller sequence receiving the cancellation.
        sequence: CommandSequence,
        /// Whether a simultaneous successful completion was suppressed.
        suppressed_completion: bool,
    },
    /// Backend start, poll, or cancellation failed and the slot was reaped.
    Failed {
        /// Controller sequence receiving the failure.
        sequence: CommandSequence,
        /// Lossless backend failure.
        error: BackendError,
        /// Whether cancellation had already been requested.
        cancellation_pending: bool,
    },
}

impl IncrementalDriverEvent {
    /// The sequence whose command this event ends, if it ends one.
    pub open spec fn ends(self) -> Option<CommandSequence> {
        match self {
            IncrementalDriverEvent::Completed { sequence, .. } => Some(sequence),
            IncrementalDriverEvent::Cancelled { sequence, .. } => Some(sequence),
            IncrementalDriverEvent::Failed { sequence, .. } => Some(sequence),
            _ => None,
        }
    }
}

/// The event that reports `transition` of the operation behind `sequence`.
pub open spec fn transition_event(
    sequence: CommandSequence,
    operation: OperationId,
    transition: RunnerTransition,
) -> IncrementalDriverEvent {
    match transition {
        RunnerTransition::Pending { made_progress, wait_for } => IncrementalDriverEvent::Pending {
            sequence,
            operation,
            made_progress,
            wait_for,
        },
        RunnerTransition::BudgetExhausted { made_progress, wait_for } =>
        IncrementalDriverEvent::BudgetExhausted { sequence, operation, made_progress, wait_for },
        RunnerTransition::Completed(completion) => IncrementalDriverEvent::Completed {
            sequence,
            completion,
        },
        RunnerTransition::Cancelled { suppressed_completion } =>
        IncrementalDriverEvent::Cancelled { sequence, suppressed_completion },
        RunnerTransition::Failed { error, cancellation_pending } =>
        IncrementalDriverEvent::Failed { sequence, error, cancellation_pending },
    }
}

/// The operation is over after this transition.
pub open spec fn is_terminal(transition: RunnerTransition) -> bool {
    !(transition is Pending) && !(transition is BudgetExhausted)
}

/// What a driver knows between two calls.
pub struct DriverModel {
    /// Commands owned.
    pub commands: ArbiterModel<IncrementalRequest>,
    /// Operation slot, rotation, and subscriptions.
    pub runner: RunnerModel,
    /// The active operation is to be polled without waiting for a wake.
    pub poll_due: bool,
    /// Work grant of every poll.
    pub budget: WorkBudget,
}

impl DriverModel {
    /// Command ownership and operation lifecycle agree: no start is left open,
    /// the active command is the operation in the slot, and its cancellation is
    /// recorded on both sides.
    pub open spec fn wf(self) -> bool {
        &&& self.commands.starting is None
        &&& 0 <= self.runner.next < 4
        &&& match self.commands.active {
            None => self.runner.tracker.current is None && !self.poll_due,
            Some(active) => {
                &&& self.runner.tracker.current == Some(
                    (
                        active.operation,
                        if active.cancel_requested {
                            OperationLifecycle::CancelRequested
                        } else {
                            OperationLifecycle::Started
                        },
                    ),
                )
                &&& self.poll_due ==> self.runner.wait_for.has(BACKEND_BIT)
            },
        }
    }

    /// No command has ever been submitted.
    pub open spec fn idle(budget: WorkBudget) -> Self {
        DriverModel {
            commands: ArbiterModel::empty(),
            runner: RunnerModel::idle(),
            poll_due: false,
            budget,
        }
    }

    /// The active command is over and the slot is free.
    pub open spec fn finished(self) -> Self {
        DriverModel {
            commands: ArbiterModel { active: None, ..self.commands },
            runner: self.runner.reaped(),
            poll_due: false,
            ..self
        }
    }

    /// The slot holds a new operation for the pending command.
    pub open spec fn started(self) -> Self
        recommends
            self.commands.pending is Some,
    {
        let operation = self.runner.tracker.next_id(0);
        DriverModel {
            commands: ArbiterModel {
                active: Some(
                    ActiveCommand {
                        sequence: self.commands.pending->Some_0.0,
                        operation,
                        cancel_requested: false,
                    },
                ),
                starting: None,
                pending: None,
            },
            runner: RunnerModel {
                tracker: TrackerModel {
                    generation: crate::incremental::next_generation(self.runner.tracker.generation),
                    current: Some((operation, OperationLifecycle::Started)),
                },
                wait_for: WaitSet::of(BACKEND_BIT),
                ..self.runner
            },
            poll_due: true,
            ..self
        }
    }

    /// The pending command is gone after the backend refused to start it.
    pub open spec fn start_refused(self) -> Self {
        DriverModel {
            commands: ArbiterModel { pending: None, ..self.commands },
            runner: RunnerModel {
                tracker: TrackerModel {
                    generation: crate::incremental::next_generation(self.runner.tracker.generation),
                    current: None,
                },
                wait_for: WaitSet::of(0),
                ..self.runner
            },
            ..self
        }
    }

    /// The backend accepted the cancellation of the active operation.
    pub open spec fn cancelling(self, poll_due: bool) -> Self
        recommends
            self.commands.active is Some,
    {
        let active = self.commands.active->Some_0;
        DriverModel {
            commands: ArbiterModel {
                active: Some(ActiveCommand { cancel_requested: true, ..active }),
                ..self.commands
            },
            runner: RunnerModel {
                tracker: self.runner.tracker.at(
                    active.operation,
                    OperationLifecycle::CancelRequested,
                ),
                wait_for: WaitSet::of(self.runner.wait_for@ | BACKEND_BIT),
                ..self.runner
            },
            poll_due,
            ..self
        }
    }

    /// The runner as it chooses its next action: also waiting for its deadline
    /// while there is one.
    pub open spec fn subscribed(self, deadline: Option<u64>) -> RunnerModel {
        if deadline is Some {
            self.runner.subscribed(TIMER_BIT)
        } else {
            self.runner
        }
    }

    /// Ready sources, counting a poll that is due as backend readiness.
    pub open spec fn effective_ready(self, ready: WaitSet) -> WaitSet {
        if self.poll_due {
            WaitSet::of(ready@ | BACKEND_BIT)
        } else {
            ready
        }
    }

    /// What the active operation does next.
    pub open spec fn poll_step(self, ready: WaitSet, deadline: Option<u64>) -> RunnerStep {
        self.subscribed(deadline).step(self.effective_ready(ready))
    }

    /// The state after choosing [`Self::poll_step`]: the wait set is not extended.
    pub open spec fn poll_stepped(self, ready: WaitSet, deadline: Option<u64>) -> Self {
        DriverModel {
            runner: RunnerModel {
                wait_for: self.runner.wait_for,
                ..self.subscribed(deadline).stepped(self.effective_ready(ready))
            },
            ..self
        }
    }

    /// The state after a poll that returned `result`.
    pub open spec fn polled(
        self,
        operation: OperationId,
        result: Result<WorkReport, BackendError>,
    ) -> Self {
        let spent = DriverModel { poll_due: false, ..self };
        match result {
            Err(_) => self.finished(),
            Ok(report) => if report@.operation != operation {
                spent
            } else if report@.disposition is Complete || report@.disposition is Cancelled {
                self.finished()
            } else {
                DriverModel {
                    runner: self.runner.reported(operation, report@.disposition),
                    ..spent
                }
            },
        }
    }

    /// What the driver reports after a poll that returned `result`.
    pub open spec fn poll_result(
        self,
        sequence: CommandSequence,
        operation: OperationId,
        result: Result<WorkReport, BackendError>,
    ) -> Result<IncrementalDriverEvent, IncrementalDriverError> {
        match result {
            Err(error) => Ok(
                IncrementalDriverEvent::Failed {
                    sequence,
                    error,
                    cancellation_pending: self.runner.cancelling(operation),
                },
            ),
            Ok(report) => if report@.operation != operation {
                Err(
                    IncrementalDriverError::Runner(
                        RunnerStateError::StaleReport {
                            expected: operation,
                            actual: report@.operation,
                        },
                    ),
                )
            } else {
                Ok(
                    transition_event(
                        sequence,
                        operation,
                        self.runner.transition(
                            operation,
                            report@.made_progress,
                            report@.disposition,
                        ),
                    ),
                )
            },
        }
    }

    /// The wait depends on the deadline of the active operation.
    pub open spec fn asks_deadline(self) -> bool {
        &&& self.commands.action() is WaitActive
        &&& !self.poll_due
        &&& self.runner.wait_for@ != 0
    }

    /// What to wait for before driving again.
    pub open spec fn intent(self, deadline: Option<u64>) -> IncrementalWaitIntent {
        match self.commands.action() {
            CommandArbiterAction::Idle => IncrementalWaitIntent {
                sources: WaitSet::of(0),
                deadline_us: None,
                run_immediately: false,
            },
            CommandArbiterAction::WaitActive(_) => if self.poll_due || self.runner.wait_for@ == 0 {
                IncrementalWaitIntent {
                    sources: WaitSet::of(0),
                    deadline_us: None,
                    run_immediately: true,
                }
            } else {
                IncrementalWaitIntent {
                    sources: self.subscribed(deadline).wait_for,
                    deadline_us: deadline,
                    run_immediately: false,
                }
            },
            _ => IncrementalWaitIntent {
                sources: WaitSet::of(0),
                deadline_us: None,
                run_immediately: true,
            },
        }
    }
}

impl DriverModel {
    /// A request to cancel `sequence` finds something to do.
    pub open spec fn cancels_on_request(self, sequence: CommandSequence) -> bool {
        if self.commands.active matches Some(active) && active.sequence == sequence {
            !self.commands.active->Some_0.cancel_requested
        } else {
            self.commands.pending matches Some(pending) && pending.0 == sequence
        }
    }
}

/// Which start a driver makes for its pending command, and what follows.
pub open spec fn starts_pending(
    pre: DriverModel,
    call: Option<IncrementalCall>,
    post: DriverModel,
    result: Result<IncrementalDriverEvent, IncrementalDriverError>,
) -> bool {
    let (sequence, pending) = pre.commands.pending->Some_0;
    &&& call matches Some(IncrementalCall::Start { operation, request, result: answer })
    &&& operation == pre.runner.tracker.next_id(0)
    &&& request == pending
    &&& result is Ok
    &&& match answer {
        Ok(_) => {
            &&& post == pre.started()
            &&& result->Ok_0 == (IncrementalDriverEvent::Started { sequence, operation })
        },
        Err(error) => {
            &&& post == pre.start_refused()
            &&& result->Ok_0 == (IncrementalDriverEvent::Failed {
                sequence,
                error,
                cancellation_pending: false,
            })
        },
    }
}

/// What a driver does with its active operation, given the ready sources and
/// the deadline: wait, poll once, or refuse a command turn.
pub open spec fn polls_active(
    pre: DriverModel,
    ready: WaitSet,
    deadline: Option<u64>,
    call: Option<IncrementalCall>,
    post: DriverModel,
    result: Result<IncrementalDriverEvent, IncrementalDriverError>,
) -> bool {
    let active = pre.commands.active->Some_0;
    let chosen = pre.poll_stepped(ready, deadline);
    match pre.poll_step(ready, deadline) {
        RunnerStep::Waiting(wait_for) => {
            &&& call is None
            &&& post == chosen
            &&& result is Ok
            &&& result->Ok_0 == (IncrementalDriverEvent::Waiting {
                sequence: active.sequence,
                operation: active.operation,
                wait_for,
            })
        },
        RunnerStep::PollBackend { operation, reason } => {
            &&& call matches Some(
                IncrementalCall::Poll {
                    operation: polled,
                    reason: woken_by,
                    budget,
                    output: _,
                    result: answer,
                },
            )
            &&& polled == operation
            &&& woken_by == reason
            &&& budget == pre.budget
            &&& post == chosen.polled(operation, answer)
            &&& result == chosen.poll_result(active.sequence, operation, answer)
        },
        _ => {
            &&& call is None
            &&& post == chosen
            &&& result is Err
            &&& result->Err_0 == IncrementalDriverError::Arbiter(
                CommandArbiterError::InvalidTransition,
            )
        },
    }
}

/// What one step of the driver does.
///
/// `call` is the backend call made, if any; the step depends on the backend
/// only through the values that `call` and `deadline` carry.
pub open spec fn drives(
    pre: DriverModel,
    ready: WaitSet,
    deadline: Option<u64>,
    call: Option<IncrementalCall>,
    post: DriverModel,
    result: Result<IncrementalDriverEvent, IncrementalDriverError>,
) -> bool {
    match pre.commands.action() {
        CommandArbiterAction::Idle => {
            &&& call is None
            &&& post == pre
            &&& result is Ok
            &&& result->Ok_0 == IncrementalDriverEvent::Idle
        },
        CommandArbiterAction::StartPending(_) => starts_pending(pre, call, post, result),
        CommandArbiterAction::CancelActive(_) => {
            &&& result is Ok
            &&& cancels(pre, false, call, post, result->Ok_0)
        },
        CommandArbiterAction::WaitActive(_) => polls_active(
            pre,
            ready,
            deadline,
            call,
            post,
            result,
        ),
        CommandArbiterAction::Starting(_) => false,
    }
}

/// Delivery of the one cancellation of the active operation to the backend.
pub open spec fn cancels(
    pre: DriverModel,
    poll_due: bool,
    call: Option<IncrementalCall>,
    post: DriverModel,
    event: IncrementalDriverEvent,
) -> bool {
    let active = pre.commands.active->Some_0;
    &&& call matches Some(IncrementalCall::Cancel { operation, result: answer })
    &&& operation == active.operation
    &&& match answer {
        Ok(_) => {
            &&& post == pre.cancelling(poll_due)
            &&& event == (IncrementalDriverEvent::CancelRequested {
                sequence: active.sequence,
                operation,
            })
        },
        Err(error) => {
            &&& post == pre.finished()
            &&& event == (IncrementalDriverEvent::Failed {
                sequence: active.sequence,
                error,
                cancellation_pending: true,
            })
        },
    }
}

/// What a request to cancel the command behind `sequence` does: it is delivered
/// to the backend while that command is active and not yet cancelled, takes the
/// command back while it is pending, and otherwise changes nothing.
pub open spec fn answers_cancellation(
    pre: DriverModel,
    sequence: CommandSequence,
    call: Option<IncrementalCall>,
    post: DriverModel,
    event: Option<IncrementalDriverEvent>,
) -> bool {
    if pre.commands.active matches Some(active) && active.sequence == sequence {
        if pre.commands.active->Some_0.cancel_requested {
            call is None && post == pre && event is None
        } else {
            event is Some && cancels(pre, true, call, post, event->Some_0)
        }
    } else if pre.commands.pending matches Some(pending) && pending.0 == sequence {
        &&& call is None
        &&& post == (DriverModel {
            commands: ArbiterModel { pending: None, ..pre.commands },
            ..pre
        })
        &&& event == Some(
            IncrementalDriverEvent::Cancelled { sequence, suppressed_completion: false },
        )
    } else {
        call is None && post == pre && event is None
    }
}

/// `deadline` is what the backend answered for the active operation.
pub open spec fn deadline_answered<B: IncrementalWifiBackend>(
    backend: B,
    driver: DriverModel,
    deadline: Option<u64>,
) -> bool {
    match driver.commands.active {
        Some(active) => backend.answers_deadline(active.operation, deadline),
        None => deadline is None,
    }
}

/// `intent` is what the driver waits for, with the deadline that the backend
/// answered where the intent depends on it.
pub open spec fn intent_answered<B: IncrementalWifiBackend>(
    backend: B,
    driver: DriverModel,
    intent: IncrementalWaitIntent,
) -> bool {
    exists|deadline: Option<u64>|
        {
            &&& intent == #[trigger] driver.intent(deadline)
            &&& driver.asks_deadline() ==> deadline_answered(backend, driver, deadline)
        }
}

/// One step of a driver together with its backend: at most one backend call is
/// made, and the step follows from what it returned.
pub open spec fn driver_steps<B: IncrementalWifiBackend>(
    before: B,
    pre: DriverModel,
    ready: WaitSet,
    given: Seq<ScanResult>,
    after: B,
    post: DriverModel,
    output: Seq<ScanResult>,
    result: Result<IncrementalDriverEvent, IncrementalDriverError>,
) -> bool {
    exists|call: Option<IncrementalCall>, deadline: Option<u64>|
        {
            &&& #[trigger] drives(pre, ready, deadline, call, post, result)
            &&& crate::incremental::backend_steps(before, given, call, after)
            &&& pre.commands.action() is WaitActive ==> deadline_answered(before, pre, deadline)
            &&& output == crate::incremental::buffer_after(given, call)
        }
}

/// One cancellation request to a driver together with its backend.
pub open spec fn cancellation_steps<B: IncrementalWifiBackend>(
    before: B,
    pre: DriverModel,
    sequence: CommandSequence,
    after: B,
    post: DriverModel,
    event: Option<IncrementalDriverEvent>,
) -> bool {
    exists|call: Option<IncrementalCall>|
        {
            &&& #[trigger] answers_cancellation(pre, sequence, call, post, event)
            &&& crate::incremental::backend_steps(before, Seq::empty(), call, after)
        }
}

/// Executable, deterministic composition of the incremental contracts.
///
/// This driver deliberately does not own an async executor. The
/// [`crate::IncrementalRadioRunner`] facade feeds commands and platform-derived
/// wake bits into [`Self::drive_once`].
pub struct IncrementalBackendDriver<B> {
    backend: B,
    arbiter: CommandArbiter<IncrementalRequest>,
    runner: IncrementalRunnerState,
    poll_due: bool,
    budget: WorkBudget,
}

impl<B: IncrementalWifiBackend> IncrementalBackendDriver<B> {
    /// What the driver knows.
    pub closed spec fn view(&self) -> DriverModel {
        DriverModel {
            commands: self.arbiter@,
            runner: self.runner@,
            poll_due: self.poll_due,
            budget: self.budget,
        }
    }

    /// The backend as it stands.
    pub closed spec fn backend_state(&self) -> B {
        self.backend
    }

    /// The driver's parts agree with each other.
    pub open spec fn wf(&self) -> bool {
        self@.wf()
    }

    /// Construct an idle driver with a fixed per-poll work grant.
    pub fn new(backend: B, budget: WorkBudget) -> (driver: Self)
        ensures
            driver.wf(),
            driver@ == DriverModel::idle(budget),
            driver.backend_state() == backend,
    {
        IncrementalBackendDriver {
            backend,
            arbiter: CommandArbiter::new(),
            runner: IncrementalRunnerState::new(),
            poll_due: false,
            budget,
        }
    }

    /// Queue one request without overwriting an existing replacement request.
    pub fn submit(&mut self, sequence: CommandSequence, request: IncrementalRequest) -> (result:
        Result<(), SubmitError<IncrementalRequest>>)
        requires
            old(self).wf(),
        ensures
            final(self).wf(),
            final(self).backend_state() == old(self).backend_state(),
            match result {
                Ok(_) => {
                    &&& old(self)@.commands.pending is None
                    &&& final(self)@ == (DriverModel {
                        commands: ArbiterModel {
                            pending: Some((sequence, request)),
                            ..old(self)@.commands
                        },
                        ..old(self)@
                    })
                },
                Err(error) => {
                    &&& old(self)@.commands.pending is Some
                    &&& error@ == (CommandArbiterError::Busy, (sequence, request))
                    &&& final(self)@ == old(self)@
                },
            },
    {
        self.arbiter.submit(PendingCommand::new(sequence, request))
    }

    /// Whether the bounded command arbiter can retain one more request.
    pub fn can_submit(&self) -> (available: bool)
        ensures
            available == (self@.commands.pending is None),
    {
        self.arbiter.can_submit()
    }

    /// Execute at most one start, cancellation, or bounded backend poll.
    pub fn drive_once(&mut self, ready: WaitSet, scan_output: &mut [ScanResult]) -> (result: Result<
        IncrementalDriverEvent,
        IncrementalDriverError,
    >)
        requires
            old(self).wf(),
        ensures
            final(self).wf(),
            driver_steps(
                old(self).backend_state(),
                old(self)@,
                ready,
                old(scan_output)@,
                final(self).backend_state(),
                final(self)@,
                final(scan_output)@,
                result,
            ),
            final(scan_output)@.len() == old(scan_output)@.len(),
    {
        match self.arbiter.action() {
            CommandArbiterAction::Idle => {
                let result = Ok(IncrementalDriverEvent::Idle);
                assert(drives(old(self)@, ready, None, None, self@, result));
                result
            },
            CommandArbiterAction::StartPending(_) => {
                let result = self.start_pending();
                proof {
                    let call = choose|call: Option<IncrementalCall>|
                        #[trigger] starts_pending(old(self)@, call, self@, result)
                            && crate::incremental::backend_steps(
                            old(self).backend_state(),
                            Seq::empty(),
                            call,
                            self.backend_state(),
                        );
                    assert(drives(old(self)@, ready, None, call, self@, result));
                }
                result
            },
            CommandArbiterAction::Starting(_) => Err(
                IncrementalDriverError::from(CommandArbiterError::InvalidTransition),
            ),
            CommandArbiterAction::CancelActive(operation) => {
                let result = self.cancel_active(operation);
                proof {
                    let call = choose|call: Option<IncrementalCall>|
                        #[trigger] cancels(old(self)@, false, call, self@, result->Ok_0)
                            && crate::incremental::backend_steps(
                            old(self).backend_state(),
                            Seq::empty(),
                            call,
                            self.backend_state(),
                        );
                    assert(drives(old(self)@, ready, None, call, self@, result));
                }
                result
            },
            CommandArbiterAction::WaitActive(operation) => self.poll_active(
                operation,
                ready,
                scan_output,
            ),
        }
    }

    /// Cancel the command behind `sequence`, whether active or pending.
    ///
    /// A cancelled active operation is polled again without waiting for a wake.
    pub fn request_cancel(&mut self, sequence: CommandSequence) -> (result: Result<
        Option<IncrementalDriverEvent>,
        IncrementalDriverError,
    >)
        requires
            old(self).wf(),
        ensures
            final(self).wf(),
            result is Ok,
            cancellation_steps(
                old(self).backend_state(),
                old(self)@,
                sequence,
                final(self).backend_state(),
                final(self)@,
                result->Ok_0,
            ),
            result->Ok_0 is None ==> final(self).backend_state() == old(self).backend_state(),
    {
        if let Some((active, operation)) = self.arbiter.active() {
            if active == sequence {
                if self.arbiter.cancel_requested() {
                    assert(answers_cancellation(old(self)@, sequence, None, self@, None));
                    return Ok(None);
                }
                let event = match self.cancel_active(operation) {
                    Ok(event) => event,
                    Err(error) => return Err(error),
                };
                let ghost call = choose|call: Option<IncrementalCall>|
                    #[trigger] cancels(old(self)@, false, call, self@, event) && crate::incremental::backend_steps(
                        old(self).backend_state(),
                        Seq::empty(),
                        call,
                        self.backend_state(),
                    );
                if let IncrementalDriverEvent::CancelRequested { .. } = event {
                    proof {
                        lemma_union_has_backend(old(self)@.runner.wait_for@);
                    }
                    self.poll_due = true;
                }
                assert(answers_cancellation(old(self)@, sequence, call, self@, Some(event)));
                return Ok(Some(event));
            }
        }
        match self.arbiter.withdraw(sequence) {
            Some(_) => {
                let event = Some(
                    IncrementalDriverEvent::Cancelled { sequence, suppressed_completion: false },
                );
                assert(answers_cancellation(old(self)@, sequence, None, self@, event));
                Ok(event)
            },
            None => {
                assert(answers_cancellation(old(self)@, sequence, None, self@, None));
                Ok(None)
            },
        }
    }

    /// Monotonic backend deadline for the active operation.
    pub fn next_deadline_us(&self) -> (deadline_us: Option<u64>)
        ensures
            deadline_answered(self.backend_state(), self@, deadline_us),
    {
        match self.arbiter.active() {
            Some((_, operation)) => self.backend.next_deadline_us(operation),
            None => None,
        }
    }

    /// Snapshot immediate work, wake subscriptions, and the next deadline.
    pub fn wait_intent(&self) -> (intent: IncrementalWaitIntent)
        ensures
            intent_answered(self.backend_state(), self@, intent),
    {
        let immediate = match self.arbiter.action() {
            CommandArbiterAction::Idle => {
                let intent = IncrementalWaitIntent {
                    sources: WaitSet::empty(),
                    deadline_us: None,
                    run_immediately: false,
                };
                assert(intent == self@.intent(None));
                return intent;
            },
            CommandArbiterAction::WaitActive(_) => self.poll_due || self.runner.wait_for().is_empty(
            ),
            _ => true,
        };
        if immediate {
            let intent = IncrementalWaitIntent {
                sources: WaitSet::empty(),
                deadline_us: None,
                run_immediately: true,
            };
            assert(intent == self@.intent(None));
            return intent;
        }
        let deadline_us = self.next_deadline_us();
        let sources = if deadline_us.is_some() {
            self.runner.wait_for().union(WaitSet::timer())
        } else {
            self.runner.wait_for()
        };
        let intent = IncrementalWaitIntent { sources, deadline_us, run_immediately: false };
        assert(intent == self@.intent(deadline_us));
        intent
    }

    /// Borrow the backend for platform wake registration and diagnostics.
    pub fn backend(&self) -> (backend: &B)
        ensures
            *backend == self.backend_state(),
    {
        &self.backend
    }

    /// Recover the backend after the driver is stopped.
    pub fn into_backend(self) -> (backend: B)
        ensures
            backend == self.backend_state(),
    {
        self.backend
    }

    fn start_pending(&mut self) -> (result: Result<IncrementalDriverEvent, IncrementalDriverError>)
        requires
            old(self).wf(),
            old(self)@.commands.action() is StartPending,
        ensures
            final(self).wf(),
            exists|call: Option<IncrementalCall>|
                #[trigger] starts_pending(old(self)@, call, final(self)@, result) && crate::incremental::backend_steps(
                    old(self).backend_state(),
                    Seq::empty(),
                    call,
                    final(self).backend_state(),
                ),
    {
        let pending = match self.arbiter.take_startable() {
            Ok(pending) => pending,
            Err(error) => return Err(IncrementalDriverError::from(error)),
        };
        let sequence = pending.sequence();
        let operation = match self.runner.queue(0) {
            Ok(operation) => operation,
            Err(error) => return Err(IncrementalDriverError::from(error)),
        };
        let ghost request = pending@.1;
        let started = self.backend.start(operation, pending.into_inner());
        let ghost call = Some(IncrementalCall::Start { operation, request, result: started });
        match started {
            Ok(()) => {
                if let Err(error) = self.runner.mark_started(operation) {
                    return Err(IncrementalDriverError::from(error));
                }
                if let Err(error) = self.arbiter.mark_started(sequence, operation) {
                    return Err(IncrementalDriverError::from(error));
                }
                self.poll_due = true;
                assert(2u8 & 2u8 == 2u8) by (bit_vector);
                let result = Ok(IncrementalDriverEvent::Started { sequence, operation });
                assert(starts_pending(old(self)@, call, self@, result));
                result
            },
            Err(error) => {
                let transition = match self.runner.reject_start(operation, error) {
                    Ok(transition) => transition,
                    Err(error) => return Err(IncrementalDriverError::from(error)),
                };
                if let Err(error) = self.runner.reap(operation) {
                    return Err(IncrementalDriverError::from(error));
                }
                if let Err(error) = self.arbiter.reject_start(sequence) {
                    return Err(IncrementalDriverError::from(error));
                }
                let result = self.failed_event(sequence, transition);
                assert(starts_pending(old(self)@, call, self@, result));
                result
            },
        }
    }

    fn cancel_active(&mut self, operation: OperationId) -> (result: Result<
        IncrementalDriverEvent,
        IncrementalDriverError,
    >)
        requires
            old(self).wf(),
            old(self)@.commands.active matches Some(active) && active.operation == operation
                && !active.cancel_requested,
        ensures
            final(self).wf(),
            result is Ok,
            exists|call: Option<IncrementalCall>|
                #[trigger] cancels(old(self)@, false, call, final(self)@, result->Ok_0)
                    && crate::incremental::backend_steps(
                    old(self).backend_state(),
                    Seq::empty(),
                    call,
                    final(self).backend_state(),
                ),
    {
        let (sequence, active) = match self.active() {
            Ok(active) => active,
            Err(error) => return Err(error),
        };
        if active != operation {
            return Err(IncrementalDriverError::from(CommandArbiterError::StaleOperation));
        }
        match self.runner.request_cancel(operation) {
            Err(error) => Err(IncrementalDriverError::from(error)),
            Ok(CancelDirective::CompleteLocally) => Err(
                IncrementalDriverError::from(CommandArbiterError::InvalidTransition),
            ),
            Ok(CancelDirective::AlreadyRequested) => Err(
                IncrementalDriverError::from(CommandArbiterError::InvalidTransition),
            ),
            Ok(CancelDirective::NotifyBackend) => {
                let cancelled = self.backend.cancel(operation);
                let ghost call = Some(IncrementalCall::Cancel { operation, result: cancelled });
                match cancelled {
                    Ok(()) => {
                        if let Err(error) = self.arbiter.mark_cancel_requested(operation) {
                            return Err(IncrementalDriverError::from(error));
                        }
                        self.poll_due = false;
                        let result = Ok(
                            IncrementalDriverEvent::CancelRequested { sequence, operation },
                        );
                        assert(cancels(old(self)@, false, call, self@, result->Ok_0));
                        result
                    },
                    Err(error) => {
                        let transition = match self.runner.apply_error(operation, error) {
                            Ok(transition) => transition,
                            Err(error) => return Err(IncrementalDriverError::from(error)),
                        };
                        let result = self.finish_terminal(operation, sequence, transition);
                        assert(cancels(old(self)@, false, call, self@, result->Ok_0));
                        result
                    },
                }
            },
        }
    }

    fn poll_active(
        &mut self,
        operation: OperationId,
        ready: WaitSet,
        scan_output: &mut [ScanResult],
    ) -> (result: Result<IncrementalDriverEvent, IncrementalDriverError>)
        requires
            old(self).wf(),
            old(self)@.commands.action() == CommandArbiterAction::WaitActive(operation),
        ensures
            final(self).wf(),
            driver_steps(
                old(self).backend_state(),
                old(self)@,
                ready,
                old(scan_output)@,
                final(self).backend_state(),
                final(self)@,
                final(scan_output)@,
                result,
            ),
            final(scan_output)@.len() == old(scan_output)@.len(),
    {
        let ghost pre = self@;
        let ghost given = ready;
        let (sequence, active) = match self.active() {
            Ok(active) => active,
            Err(error) => return Err(error),
        };
        if active != operation {
            return Err(IncrementalDriverError::from(CommandArbiterError::StaleOperation));
        }
        let deadline = self.next_deadline_us();
        let timer = if deadline.is_some() {
            WaitSet::timer()
        } else {
            WaitSet::empty()
        };
        let ready = if self.poll_due {
            ready.union(WaitSet::backend())
        } else {
            ready
        };
        let step = self.runner.select_step_with(ready, timer);
        proof {
            lemma_poll_step_keeps_wf(pre, given, deadline);
        }
        match step {
            RunnerStep::Idle | RunnerStep::CommandReady(_) => {
                let result = Err(
                    IncrementalDriverError::from(CommandArbiterError::InvalidTransition),
                );
                assert(drives(pre, given, deadline, None, self@, result));
                result
            },
            RunnerStep::Waiting(wait_for) => {
                let result = Ok(IncrementalDriverEvent::Waiting { sequence, operation, wait_for });
                assert(drives(pre, given, deadline, None, self@, result));
                result
            },
            RunnerStep::PollBackend { operation, reason } => {
                self.poll_due = false;
                let polled = self.backend.poll(operation, reason, self.budget, scan_output);
                let ghost call = Some(
                    IncrementalCall::Poll {
                        operation,
                        reason,
                        budget: self.budget,
                        output: scan_output@,
                        result: polled,
                    },
                );
                let result = self.settle_poll(operation, sequence, polled);
                assert(drives(pre, given, deadline, call, self@, result));
                result
            },
        }
    }

    /// Take in what a poll of the active operation returned.
    fn settle_poll(
        &mut self,
        operation: OperationId,
        sequence: CommandSequence,
        polled: Result<WorkReport, BackendError>,
    ) -> (result: Result<IncrementalDriverEvent, IncrementalDriverError>)
        requires
            old(self).wf(),
            !old(self)@.poll_due,
            old(self)@.commands.active matches Some(active) && active.operation == operation
                && active.sequence == sequence,
        ensures
            final(self).wf(),
            final(self).backend_state() == old(self).backend_state(),
            final(self)@ == old(self)@.polled(operation, polled),
            result == old(self)@.poll_result(sequence, operation, polled),
    {
        match polled {
            Ok(report) => {
                let transition = match self.runner.apply_report(operation, report) {
                    Ok(transition) => transition,
                    Err(error) => return Err(IncrementalDriverError::from(error)),
                };
                match transition {
                    RunnerTransition::Pending { made_progress, wait_for } => Ok(
                        IncrementalDriverEvent::Pending {
                            sequence,
                            operation,
                            made_progress,
                            wait_for,
                        },
                    ),
                    RunnerTransition::BudgetExhausted { made_progress, wait_for } => Ok(
                        IncrementalDriverEvent::BudgetExhausted {
                            sequence,
                            operation,
                            made_progress,
                            wait_for,
                        },
                    ),
                    transition => self.finish_terminal(operation, sequence, transition),
                }
            },
            Err(error) => {
                let transition = match self.runner.apply_error(operation, error) {
                    Ok(transition) => transition,
                    Err(error) => return Err(IncrementalDriverError::from(error)),
                };
                self.finish_terminal(operation, sequence, transition)
            },
        }
    }

    fn finish_terminal(
        &mut self,
        operation: OperationId,
        sequence: CommandSequence,
        transition: RunnerTransition,
    ) -> (result: Result<IncrementalDriverEvent, IncrementalDriverError>)
        requires
            old(self)@.commands.starting is None,
            old(self)@.commands.active matches Some(active) && active.operation == operation
                && active.sequence == sequence,
            old(self)@.runner.tracker.current == Some((operation, OperationLifecycle::Terminal)),
            0 <= old(self)@.runner.next < 4,
            is_terminal(transition),
        ensures
            final(self).wf(),
            final(self)@ == old(self)@.finished(),
            final(self).backend_state() == old(self).backend_state(),
            result is Ok,
            result->Ok_0 == transition_event(sequence, operation, transition),
    {
        self.poll_due = false;
        let finished_sequence = match self.arbiter.finish_active(operation) {
            Ok(finished_sequence) => finished_sequence,
            Err(error) => return Err(IncrementalDriverError::from(error)),
        };
        if finished_sequence != sequence {
            return Err(IncrementalDriverError::from(CommandArbiterError::StaleOperation));
        }
        if let Err(error) = self.runner.reap(operation) {
            return Err(IncrementalDriverError::from(error));
        }
        match transition {
            RunnerTransition::Completed(completion) => Ok(
                IncrementalDriverEvent::Completed { sequence, completion },
            ),
            RunnerTransition::Cancelled { suppressed_completion } => Ok(
                IncrementalDriverEvent::Cancelled { sequence, suppressed_completion },
            ),
            RunnerTransition::Failed { .. } => self.failed_event(sequence, transition),
            RunnerTransition::Pending { .. } | RunnerTransition::BudgetExhausted { .. } => Err(
                IncrementalDriverError::from(CommandArbiterError::InvalidTransition),
            ),
        }
    }

    fn failed_event(&self, sequence: CommandSequence, transition: RunnerTransition) -> (result:
        Result<IncrementalDriverEvent, IncrementalDriverError>)
        ensures
            match transition {
                RunnerTransition::Failed { error, cancellation_pending } => {
                    &&& result is Ok
                    &&& result->Ok_0 == (IncrementalDriverEvent::Failed {
                        sequence,
                        error,
                        cancellation_pending,
                    })
                },
                _ => {
                    &&& result is Err
                    &&& result->Err_0 == IncrementalDriverError::Arbiter(
                        CommandArbiterError::InvalidTransition,
                    )
                },
            },
    {
        match transition {
            RunnerTransition::Failed { error, cancellation_pending } => Ok(
                IncrementalDriverEvent::Failed { sequence, error, cancellation_pending },
            ),
            _ => Err(IncrementalDriverError::from(CommandArbiterError::InvalidTransition)),
        }
    }

    fn active(&self) -> (result: Result<(CommandSequence, OperationId), IncrementalDriverError>)
        ensures
            match self@.commands.active {
                Some(active) => {
                    &&& result is Ok
                    &&& result->Ok_0 == (active.sequence, active.operation)
                },
                None => {
                    &&& result is Err
                    &&& result->Err_0 == IncrementalDriverError::Arbiter(
                        CommandArbiterError::InvalidTransition,
                    )
                },
            },
    {
        match self.arbiter.active() {
            Some(active) => Ok(active),
            None => Err(IncrementalDriverError::from(CommandArbiterError::InvalidTransition)),
        }
    }
}

proof fn lemma_union_has_backend(bits: u8)
    ensures
        WaitSet::of(bits | BACKEND_BIT).has(BACKEND_BIT),
{
    assert((bits | 2) & 2 == 2) by (bit_vector);
}

/// Choosing the next action keeps the driver's parts in agreement.
proof fn lemma_poll_step_keeps_wf(pre: DriverModel, ready: WaitSet, deadline: Option<u64>)
    requires
        pre.wf(),
        pre.commands.active is Some,
    ensures
        pre.poll_stepped(ready, deadline).wf(),
        pre.runner.subscribed(0) == pre.runner,
{
    let bits = pre.runner.wait_for@;
    assert(bits | 0 == bits) by (bit_vector);
}

impl DriverModel {
    /// Sequences of the commands that are active or pending.
    pub open spec fn owned(self) -> Multiset<CommandSequence> {
        let active = match self.commands.active {
            Some(active) => Multiset::singleton(active.sequence),
            None => Multiset::empty(),
        };
        match self.commands.pending {
            Some(pending) => active.insert(pending.0),
            None => active,
        }
    }

    /// The active operation has been cancelled.
    pub open spec fn is_cancelling(self) -> bool {
        self.commands.active matches Some(active) && active.cancel_requested
    }
}

/// Commands are neither lost nor duplicated: a step leaves the owned commands
/// as they were, except that an event which ends a command removes exactly that
/// one.
pub proof fn driving_conserves_commands(
    pre: DriverModel,
    ready: WaitSet,
    deadline: Option<u64>,
    call: Option<IncrementalCall>,
    post: DriverModel,
    result: Result<IncrementalDriverEvent, IncrementalDriverError>,
)
    requires
        pre.wf(),
        drives(pre, ready, deadline, call, post, result),
    ensures
        match result {
            Ok(event) => match event.ends() {
                Some(sequence) => {
                    &&& pre.owned().count(sequence) > 0
                    &&& post.owned() == pre.owned().remove(sequence)
                },
                None => post.owned() == pre.owned(),
            },
            Err(_) => post.owned() == pre.owned(),
        },
{
    lemma_owned_shapes(pre);
    lemma_owned_shapes(post);
}

/// A cancellation request removes at most the command that it names.
pub proof fn cancelling_conserves_commands(
    pre: DriverModel,
    sequence: CommandSequence,
    call: Option<IncrementalCall>,
    post: DriverModel,
    event: Option<IncrementalDriverEvent>,
)
    requires
        pre.wf(),
        answers_cancellation(pre, sequence, call, post, event),
    ensures
        match event {
            Some(event) => match event.ends() {
                Some(ended) => {
                    &&& ended == sequence
                    &&& pre.owned().count(sequence) > 0
                    &&& post.owned() == pre.owned().remove(sequence)
                },
                None => post.owned() == pre.owned(),
            },
            None => post == pre,
        },
{
    lemma_owned_shapes(pre);
    lemma_owned_shapes(post);
}

proof fn lemma_owned_shapes(model: DriverModel)
    ensures
        model.commands.active matches Some(active) ==> {
            &&& model.owned().count(active.sequence) > 0
            &&& model.owned().remove(active.sequence) =~= match model.commands.pending {
                Some(pending) => Multiset::singleton(pending.0),
                None => Multiset::empty(),
            }
        },
        model.commands.pending matches Some(pending) ==> {
            &&& model.owned().count(pending.0) > 0
            &&& model.owned().remove(pending.0) =~= match model.commands.active {
                Some(active) => Multiset::singleton(active.sequence),
                None => Multiset::empty(),
            }
        },
        model.commands.active is None ==> model.owned() =~= match model.commands.pending {
            Some(pending) => Multiset::singleton(pending.0),
            None => Multiset::empty(),
        },
        model.owned().len() <= 2,
{
    broadcast use vstd::multiset::group_multiset_axioms;

}

/// Cancellation reaches the backend once: while a cancelled operation is
/// active, neither a step nor another cancellation request makes a `cancel`
/// call, and the operation stays cancelled until it is over.
pub proof fn cancellation_is_delivered_once(
    pre: DriverModel,
    ready: WaitSet,
    deadline: Option<u64>,
    sequence: CommandSequence,
    call: Option<IncrementalCall>,
    post: DriverModel,
    result: Result<IncrementalDriverEvent, IncrementalDriverError>,
    event: Option<IncrementalDriverEvent>,
)
    requires
        pre.wf(),
        pre.is_cancelling(),
    ensures
        drives(pre, ready, deadline, call, post, result) ==> {
            &&& !(call matches Some(made) && made is Cancel)
            &&& post.commands.active == pre.commands.active || post.commands.active is None
        },
        answers_cancellation(pre, sequence, call, post, event) ==> {
            &&& call is None
            &&& post.commands.active == pre.commands.active
        },
{
}

/// Once the active operation is cancelled it never completes successfully.
pub proof fn cancelled_operation_never_completes(
    pre: DriverModel,
    ready: WaitSet,
    deadline: Option<u64>,
    call: Option<IncrementalCall>,
    post: DriverModel,
    result: Result<IncrementalDriverEvent, IncrementalDriverError>,
)
    requires
        pre.wf(),
        pre.is_cancelling(),
        drives(pre, ready, deadline, call, post, result),
    ensures
        !(result matches Ok(event) && event is Completed),
{
}

/// A replacement starts only after the operation it replaces is over: a step
/// that starts an operation found no other one active.
pub proof fn start_needs_a_free_slot(
    pre: DriverModel,
    ready: WaitSet,
    deadline: Option<u64>,
    call: Option<IncrementalCall>,
    post: DriverModel,
    result: Result<IncrementalDriverEvent, IncrementalDriverError>,
)
    requires
        pre.wf(),
        drives(pre, ready, deadline, call, post, result),
        call matches Some(made) && made is Start,
    ensures
        pre.commands.active is None,
        pre.runner.tracker.current is None,
{
}

/// Work announced as immediate is work: a step then calls the backend, or
/// reports a refused transition, whatever is ready.
pub proof fn immediate_work_does_not_wait(
    pre: DriverModel,
    ready: WaitSet,
    deadline: Option<u64>,
    call: Option<IncrementalCall>,
    post: DriverModel,
    result: Result<IncrementalDriverEvent, IncrementalDriverError>,
)
    requires
        pre.wf(),
        pre.intent(deadline).run_immediately,
        drives(pre, ready, deadline, call, post, result),
    ensures
        call is Some || result is Err,
{
    if pre.poll_due {
        let wait_for = pre.subscribed(deadline).wait_for@;
        let given = ready@;
        let bits = pre.runner.wait_for@;
        assert(bits & 2 == 2 ==> (bits | 8) & 2 == 2) by (bit_vector);
        assert(wait_for & 2 == 2 ==> (wait_for & (given | 2)) & 2 != 0) by (bit_vector);
        assert(crate::incremental::runner::offers(wait_for & pre.effective_ready(ready)@, WakeReason::Backend));
        crate::incremental::runner::choice_is_offered(
            pre.runner.next,
            wait_for & pre.effective_ready(ready)@,
        );
    }
}

/// Waiting is for something: where no immediate work is announced and nothing
/// is ready, a step makes no backend call and leaves the commands alone.
pub proof fn nothing_ready_means_no_call(
    pre: DriverModel,
    deadline: Option<u64>,
    call: Option<IncrementalCall>,
    post: DriverModel,
    result: Result<IncrementalDriverEvent, IncrementalDriverError>,
)
    requires
        pre.wf(),
        !pre.intent(deadline).run_immediately,
        drives(pre, WaitSet::of(0), deadline, call, post, result),
    ensures
        call is None,
        post.commands == pre.commands,
        result matches Ok(event) && (event is Idle || event is Waiting),
{
    if pre.commands.active is Some {
        let bits = pre.runner.wait_for@;
        let wait_for = pre.subscribed(deadline).wait_for@;
        assert(bits | 8 != 0) by (bit_vector);
        assert((wait_for & 0) & 1 == 0 && (wait_for & 0) & 2 == 0 && (wait_for & 0) & 4 == 0 && (
        wait_for & 0) & 8 == 0) by (bit_vector);
    }
}

/// A deadline is not remembered: a step that makes no backend call leaves the
/// operation waiting for the same sources as before, so the timer is waited for
/// only while the backend has a deadline or asked for the timer itself.
pub proof fn deadline_is_not_remembered(
    pre: DriverModel,
    ready: WaitSet,
    deadline: Option<u64>,
    call: Option<IncrementalCall>,
    post: DriverModel,
    result: Result<IncrementalDriverEvent, IncrementalDriverError>,
)
    requires
        drives(pre, ready, deadline, call, post, result),
        call is None,
    ensures
        post.runner.wait_for == pre.runner.wait_for,
        pre.asks_deadline() ==> pre.intent(None).sources == pre.runner.wait_for,
{
}

/// A wake that the intent asked for is served: when a source in the announced
/// set is ready, the step does not report that it is waiting.
pub proof fn announced_wake_is_served(
    pre: DriverModel,
    ready: WaitSet,
    reason: WakeReason,
    deadline: Option<u64>,
    call: Option<IncrementalCall>,
    post: DriverModel,
    result: Result<IncrementalDriverEvent, IncrementalDriverError>,
)
    requires
        pre.wf(),
        pre.intent(deadline).sources.has(reason.mask()),
        ready.has(reason.mask()),
        drives(pre, ready, deadline, call, post, result),
    ensures
        call is Some || result is Err,
{
    let bits = pre.intent(deadline).sources@;
    let given = pre.effective_ready(ready)@;
    let plain = ready@;
    let mask = reason.mask();
    assert(0u8 & mask != mask) by (bit_vector)
        requires
            mask == 1 || mask == 2 || mask == 4 || mask == 8,
    ;
    assert(bits & mask == mask && plain & mask == mask ==> (bits & plain) & mask != 0 && (bits & (
    plain | 2)) & mask != 0) by (bit_vector)
        requires
            mask == 1 || mask == 2 || mask == 4 || mask == 8,
    ;
    assert(crate::incremental::runner::offers(bits & given, reason));
    crate::incremental::runner::choice_is_offered(pre.runner.next, bits & given);
}

/// Every poll is granted the work that the driver was built with: the budget of a
/// new driver is the one given, no step and no cancellation request changes it, and
/// a step that polls hands it to the backend.
pub proof fn every_poll_is_granted_the_given_budget(
    given: WorkBudget,
    pre: DriverModel,
    ready: WaitSet,
    deadline: Option<u64>,
    sequence: CommandSequence,
    call: Option<IncrementalCall>,
    post: DriverModel,
    result: Result<IncrementalDriverEvent, IncrementalDriverError>,
    event: Option<IncrementalDriverEvent>,
)
    ensures
        DriverModel::idle(given).budget == given,
        drives(pre, ready, deadline, call, post, result) ==> {
            &&& post.budget == pre.budget
            &&& call matches Some(IncrementalCall::Poll { budget, .. }) ==> budget == pre.budget
        },
        answers_cancellation(pre, sequence, call, post, event) ==> {
            &&& post.budget == pre.budget
            &&& !(call matches Some(made) && made is Poll)
        },
{
}

/// A backend that keeps to the budget it is handed keeps to the one the driver was
/// built with: whenever a step polls it, the report is admissible within that budget.
pub proof fn reports_stay_within_the_given_budget<B: IncrementalWifiBackend>(
    before: B,
    pre: DriverModel,
    ready: WaitSet,
    deadline: Option<u64>,
    call: Option<IncrementalCall>,
    given: Seq<ScanResult>,
    after: B,
    post: DriverModel,
    result: Result<IncrementalDriverEvent, IncrementalDriverError>,
)
    requires
        drives(pre, ready, deadline, call, post, result),
        crate::incremental::backend_steps(before, given, call, after),
        forall|
            from: B,
            id: OperationId,
            reason: WakeReason,
            budget: WorkBudget,
            buffer: Seq<ScanResult>,
            to: B,
            output: Seq<ScanResult>,
            report: WorkReport,
        | #[trigger]
            B::polls(from, id, reason, budget, buffer, to, output, Ok(report))
                ==> report@.consumed_events <= budget@.0 && report@.elapsed_us <= budget@.1,
    ensures
        call matches Some(IncrementalCall::Poll { result: Ok(report), .. }) ==> {
            &&& report@.consumed_events <= pre.budget@.0
            &&& report@.elapsed_us <= pre.budget@.1
        },
{
    if let Some(IncrementalCall::Poll { operation, reason, budget, output, result: Ok(report) }) =
        call {
        assert(B::polls(before, operation, reason, budget, given, after, output, Ok(report)));
    }
}

/// The same over a whole step: whichever call a step makes, the backend is handed
/// the driver's own budget, the driver's own operation or request, and the caller's
/// scan buffer, which only a poll writes.
pub proof fn step_hands_the_backend_what_it_owns<B: IncrementalWifiBackend>(
    before: B,
    pre: DriverModel,
    ready: WaitSet,
    given: Seq<ScanResult>,
    after: B,
    post: DriverModel,
    output: Seq<ScanResult>,
    result: Result<IncrementalDriverEvent, IncrementalDriverError>,
)
    requires
        pre.wf(),
        driver_steps(before, pre, ready, given, after, post, output, result),
    ensures
        pre.commands.active is None && pre.commands.pending is Some ==> {
            &&& output == given
            &&& exists|answer: Result<(), BackendError>|
                #[trigger] B::starts(
                    before,
                    pre.runner.tracker.next_id(0),
                    pre.commands.pending->Some_0.1,
                    after,
                    answer,
                )
        },
        pre.commands.active is Some && (after != before || output != given) ==> {
            let operation = pre.commands.active->Some_0.operation;
            ||| exists|reason: WakeReason, answer: Result<WorkReport, BackendError>|
                #[trigger] B::polls(
                    before,
                    operation,
                    reason,
                    pre.budget,
                    given,
                    after,
                    output,
                    answer,
                )
            ||| output == given && exists|answer: Result<(), BackendError>|
                #[trigger] B::cancels(before, operation, after, answer)
        },
        pre.commands.active is None && pre.commands.pending is None ==> after == before && output
            == given && post == pre,
{
    let (call, deadline) = choose|call: Option<IncrementalCall>, deadline: Option<u64>|
        {
            &&& #[trigger] drives(pre, ready, deadline, call, post, result)
            &&& crate::incremental::backend_steps(before, given, call, after)
            &&& pre.commands.action() is WaitActive ==> deadline_answered(before, pre, deadline)
            &&& output == crate::incremental::buffer_after(given, call)
        };
    match call {
        Some(IncrementalCall::Start { operation, request, result: answer }) => {
            assert(B::starts(
                before,
                pre.runner.tracker.next_id(0),
                pre.commands.pending->Some_0.1,
                after,
                answer,
            ));
        },
        Some(IncrementalCall::Poll { operation, reason, budget, output: filled, result: answer }) => {
            assert(B::polls(before, operation, reason, pre.budget, given, after, output, answer));
        },
        Some(IncrementalCall::Cancel { operation, result: answer }) => {
            assert(B::cancels(before, operation, after, answer));
        },
        None => {},
    }
}

/// A call is always about what the driver owns: a start hands over the pending
/// request under an identity that the slot has not used last, and a poll or a
/// cancellation names the active operation. Only a source that is waited for and
/// ready, or a poll that is due, is the reason of a poll.
pub proof fn calls_name_what_the_driver_owns(
    pre: DriverModel,
    ready: WaitSet,
    deadline: Option<u64>,
    call: Option<IncrementalCall>,
    post: DriverModel,
    result: Result<IncrementalDriverEvent, IncrementalDriverError>,
)
    requires
        pre.wf(),
        drives(pre, ready, deadline, call, post, result),
    ensures
        call matches Some(IncrementalCall::Start { operation, request, .. }) ==> {
            &&& pre.commands.active is None
            &&& pre.commands.pending matches Some((_, pending))
            &&& request == pending
            &&& operation@.0 == 0
            &&& operation@.1 != 0
            &&& operation@.1 != pre.runner.tracker.generation
        },
        call matches Some(IncrementalCall::Poll { operation, .. }) ==> {
            &&& pre.commands.active matches Some(active)
            &&& operation == active.operation
            &&& pre.commands.pending is Some ==> active.cancel_requested
        },
        call matches Some(IncrementalCall::Cancel { operation, .. }) ==> {
            &&& pre.commands.active matches Some(active)
            &&& operation == active.operation
            &&& !active.cancel_requested
            &&& pre.commands.pending is Some
        },
{
}

/// An answered start is reported and remembered as the backend answered it: an
/// accepted command becomes the active one under the started identity and is polled
/// next; a refused one is gone and its failure reported.
pub proof fn start_is_reported_as_answered(
    pre: DriverModel,
    ready: WaitSet,
    deadline: Option<u64>,
    operation: OperationId,
    request: IncrementalRequest,
    answer: Result<(), BackendError>,
    post: DriverModel,
    result: Result<IncrementalDriverEvent, IncrementalDriverError>,
)
    requires
        pre.wf(),
        drives(
            pre,
            ready,
            deadline,
            Some(IncrementalCall::Start { operation, request, result: answer }),
            post,
            result,
        ),
    ensures
        post.commands.pending is None,
        post.commands.starting is None,
        answer is Ok ==> {
            &&& result == Ok::<_, IncrementalDriverError>(
                IncrementalDriverEvent::Started {
                    sequence: pre.commands.pending->Some_0.0,
                    operation,
                },
            )
            &&& post.commands.active matches Some(active)
            &&& active.sequence == pre.commands.pending->Some_0.0
            &&& active.operation == operation
            &&& !active.cancel_requested
            &&& post.poll_due
            &&& post.runner.tracker.current == Some((operation, OperationLifecycle::Started))
            &&& post.runner.wait_for@ == 2
        },
        answer matches Err(error) ==> {
            &&& result == Ok::<_, IncrementalDriverError>(
                IncrementalDriverEvent::Failed {
                    sequence: pre.commands.pending->Some_0.0,
                    error,
                    cancellation_pending: false,
                },
            )
            &&& post.commands.active is None
            &&& !post.poll_due
            &&& post.runner.tracker.current is None
            &&& post.runner.wait_for@ == 0
        },
        post.runner.tracker.generation == operation@.1,
        post.runner.next == pre.runner.next,
{
}

/// An answered cancellation is reported and remembered as the backend answered it,
/// whether a step or a request delivered it: the active command is marked, or its
/// failure ends it. A pending replacement stays.
pub proof fn cancellation_is_reported_as_answered(
    pre: DriverModel,
    ready: WaitSet,
    deadline: Option<u64>,
    sequence: CommandSequence,
    operation: OperationId,
    answer: Result<(), BackendError>,
    post: DriverModel,
    event: IncrementalDriverEvent,
)
    requires
        pre.wf(),
        drives(
            pre,
            ready,
            deadline,
            Some(IncrementalCall::Cancel { operation, result: answer }),
            post,
            Ok(event),
        ) || answers_cancellation(
            pre,
            sequence,
            Some(IncrementalCall::Cancel { operation, result: answer }),
            post,
            Some(event),
        ),
    ensures
        post.commands.pending == pre.commands.pending,
        pre.commands.active matches Some(was) && was.operation == operation && {
            &&& answer is Ok ==> {
                &&& event == (IncrementalDriverEvent::CancelRequested {
                    sequence: was.sequence,
                    operation,
                })
                &&& post.commands.active matches Some(active)
                &&& active.sequence == was.sequence
                &&& active.operation == was.operation
                &&& active.cancel_requested
                &&& post.runner.tracker.current == Some(
                    (operation, OperationLifecycle::CancelRequested),
                )
                &&& post.runner.wait_for@ == pre.runner.wait_for@ | 2
            }
            &&& answer matches Err(error) ==> {
                &&& event == (IncrementalDriverEvent::Failed {
                    sequence: was.sequence,
                    error,
                    cancellation_pending: true,
                })
                &&& post.commands.active is None
                &&& post.runner.tracker.current is None
                &&& !post.poll_due
            }
        },
        post.runner.tracker.generation == pre.runner.tracker.generation,
        post.runner.next == pre.runner.next,
        drives(
            pre,
            ready,
            deadline,
            Some(IncrementalCall::Cancel { operation, result: answer }),
            post,
            Ok(event),
        ) ==> !post.poll_due,
{
}

/// A request to cancel finds its command by its sequence alone: one that is
/// pending is taken back unseen by the backend, and one that the driver does not
/// own changes nothing.
pub proof fn cancellation_request_finds_its_command(
    pre: DriverModel,
    sequence: CommandSequence,
    call: Option<IncrementalCall>,
    post: DriverModel,
    event: Option<IncrementalDriverEvent>,
)
    requires
        pre.wf(),
        answers_cancellation(pre, sequence, call, post, event),
    ensures
        call is Some <==> (pre.commands.active matches Some(active) && active.sequence == sequence
            && !active.cancel_requested),
        call matches Some(made) ==> made is Cancel,
        call is Some && call->Some_0->Cancel_result is Ok ==> post.poll_due,
        pre.commands.active is None || pre.commands.active->Some_0.sequence != sequence ==> {
            &&& post.commands.active == pre.commands.active
            &&& post.runner == pre.runner
            &&& post.poll_due == pre.poll_due
            &&& match pre.commands.pending {
                Some((owner, _)) => if owner == sequence {
                    &&& post.commands.pending is None
                    &&& event == Some(
                        IncrementalDriverEvent::Cancelled {
                            sequence,
                            suppressed_completion: false,
                        },
                    )
                } else {
                    post == pre && event is None
                },
                None => post == pre && event is None,
            }
        },
        pre.commands.active matches Some(active) && active.sequence == sequence
            && active.cancel_requested ==> post == pre && event is None,
        event is None ==> post == pre,
{
}

/// A poll is reported as the backend answered it: progress and wake sources go on
/// unchanged and are waited for next, a completion is delivered to the command that
/// owns the operation unless its cancellation suppresses it, a failure is delivered
/// with its error, and a report about another operation is refused and changes no
/// ownership.
pub proof fn poll_is_reported_as_answered(
    pre: DriverModel,
    ready: WaitSet,
    deadline: Option<u64>,
    operation: OperationId,
    reason: WakeReason,
    budget: WorkBudget,
    output: Seq<ScanResult>,
    answer: Result<WorkReport, BackendError>,
    post: DriverModel,
    result: Result<IncrementalDriverEvent, IncrementalDriverError>,
)
    requires
        pre.wf(),
        drives(
            pre,
            ready,
            deadline,
            Some(IncrementalCall::Poll { operation, reason, budget, output, result: answer }),
            post,
            result,
        ),
    ensures
        pre.commands.active matches Some(active) && match answer {
            Err(error) => {
                &&& result == Ok::<_, IncrementalDriverError>(
                    IncrementalDriverEvent::Failed {
                        sequence: active.sequence,
                        error,
                        cancellation_pending: active.cancel_requested,
                    },
                )
                &&& post.commands.active is None
                &&& post.runner.tracker.current is None
            },
            Ok(report) if report@.operation != active.operation => {
                &&& result is Err
                &&& result->Err_0 == IncrementalDriverError::Runner(
                    RunnerStateError::StaleReport {
                        expected: active.operation,
                        actual: report@.operation,
                    },
                )
                &&& post.commands == pre.commands
                &&& post.runner.tracker == pre.runner.tracker
                &&& post.runner.wait_for == pre.runner.wait_for
            },
            Ok(report) => match report@.disposition {
                crate::incremental::PollDisposition::Pending(wait_for) => {
                    &&& result == Ok::<_, IncrementalDriverError>(
                        IncrementalDriverEvent::Pending {
                            sequence: active.sequence,
                            operation: active.operation,
                            made_progress: report@.made_progress,
                            wait_for,
                        },
                    )
                    &&& post.commands == pre.commands
                    &&& post.runner.tracker == pre.runner.tracker
                    &&& post.runner.wait_for == wait_for
                },
                crate::incremental::PollDisposition::BudgetExhausted(wait_for) => {
                    &&& result == Ok::<_, IncrementalDriverError>(
                        IncrementalDriverEvent::BudgetExhausted {
                            sequence: active.sequence,
                            operation: active.operation,
                            made_progress: report@.made_progress,
                            wait_for,
                        },
                    )
                    &&& post.commands == pre.commands
                    &&& post.runner.tracker == pre.runner.tracker
                    &&& post.runner.wait_for == wait_for
                },
                crate::incremental::PollDisposition::Complete(completion) => {
                    &&& !active.cancel_requested ==> result == Ok::<_, IncrementalDriverError>(
                        IncrementalDriverEvent::Completed {
                            sequence: active.sequence,
                            completion,
                        },
                    )
                    &&& active.cancel_requested ==> result == Ok::<_, IncrementalDriverError>(
                        IncrementalDriverEvent::Cancelled {
                            sequence: active.sequence,
                            suppressed_completion: true,
                        },
                    )
                    &&& post.commands.active is None
                    &&& post.runner.tracker.current is None
                },
                crate::incremental::PollDisposition::Cancelled => {
                    &&& result == Ok::<_, IncrementalDriverError>(
                        IncrementalDriverEvent::Cancelled {
                            sequence: active.sequence,
                            suppressed_completion: false,
                        },
                    )
                    &&& post.commands.active is None
                    &&& post.runner.tracker.current is None
                },
            },
        },
        !post.poll_due,
        post.commands.pending == pre.commands.pending,
        post.runner.tracker.generation == pre.runner.tracker.generation,
{
}

proof fn lemma_offered_source(bits: u8, given: u8, mask: u8)
    requires
        mask == 1 || mask == 2 || mask == 4 || mask == 8,
    ensures
        (bits & given) & mask != 0 <==> bits & mask == mask && given & mask == mask,
        (bits | 8) & mask == mask <==> mask == 8 || bits & mask == mask,
        (given | 2) & mask == mask <==> mask == 2 || given & mask == mask,
{
    assert(((bits & given) & mask != 0 <==> bits & mask == mask && given & mask == mask) && ((bits
        | 8) & mask == mask <==> mask == 8 || bits & mask == mask) && ((given | 2) & mask == mask
        <==> mask == 2 || given & mask == mask)) by (bit_vector)
        requires
            mask == 1 || mask == 2 || mask == 4 || mask == 8,
    ;
}

/// A poll is for a reason: its source is one that the operation waits for and that
/// is ready, where a poll that is due counts as backend work and a deadline as
/// waiting for the timer. That source has the last claim on the next turn. An
/// operation that waits for nothing is polled as backend work out of turn, and a
/// command is never a reason to poll.
pub proof fn poll_reason_is_waited_for_and_ready(
    pre: DriverModel,
    ready: WaitSet,
    deadline: Option<u64>,
    operation: OperationId,
    reason: WakeReason,
    budget: WorkBudget,
    output: Seq<ScanResult>,
    answer: Result<WorkReport, BackendError>,
    post: DriverModel,
    result: Result<IncrementalDriverEvent, IncrementalDriverError>,
)
    requires
        pre.wf(),
        drives(
            pre,
            ready,
            deadline,
            Some(IncrementalCall::Poll { operation, reason, budget, output, result: answer }),
            post,
            result,
        ),
    ensures
        pre.runner.wait_for@ == 0 ==> {
            &&& reason is Backend
            &&& post.runner.next == pre.runner.next
        },
        pre.runner.wait_for@ != 0 ==> match reason {
            WakeReason::Command => false,
            WakeReason::Backend => {
                &&& pre.runner.wait_for@ & 2 == 2
                &&& pre.poll_due || ready@ & 2 == 2
                &&& post.runner.next == 2
            },
            WakeReason::L2Rx => {
                &&& pre.runner.wait_for@ & 4 == 4
                &&& ready@ & 4 == 4
                &&& post.runner.next == 3
            },
            WakeReason::Timer => {
                &&& deadline is Some || pre.runner.wait_for@ & 8 == 8
                &&& ready@ & 8 == 8
                &&& post.runner.next == 0
            },
        },
{
    let bits = pre.runner.wait_for@;
    let plain = ready@;
    let mask = reason.mask();
    assert(bits | 8 != 0) by (bit_vector);
    lemma_offered_source(bits, plain, mask);
    lemma_offered_source(bits, plain | 2, mask);
    lemma_offered_source(bits | 8, plain, mask);
    lemma_offered_source(bits | 8, plain | 2, mask);
    crate::incremental::runner::choice_is_offered(
        pre.runner.next,
        pre.subscribed(deadline).wait_for@ & pre.effective_ready(ready)@,
    );
}

/// A step that makes no call reports why: nothing is owned, or the active operation
/// waits, and then for the sources it asked for and, while there is a deadline, for
/// the timer. The only refused turn is one that a command would take.
pub proof fn step_without_a_call_says_why(
    pre: DriverModel,
    ready: WaitSet,
    deadline: Option<u64>,
    post: DriverModel,
    result: Result<IncrementalDriverEvent, IncrementalDriverError>,
)
    requires
        pre.wf(),
        drives(pre, ready, deadline, None, post, result),
    ensures
        post.commands == pre.commands,
        post.poll_due == pre.poll_due,
        post.runner.tracker == pre.runner.tracker,
        pre.commands.active is None ==> {
            &&& pre.commands.pending is None
            &&& result == Ok::<_, IncrementalDriverError>(IncrementalDriverEvent::Idle)
        },
        pre.commands.active matches Some(active) ==> {
            &&& result matches Ok(event) ==> {
                &&& event matches IncrementalDriverEvent::Waiting { sequence, operation, wait_for }
                &&& sequence == active.sequence
                &&& operation == active.operation
                &&& deadline is None ==> wait_for@ == pre.runner.wait_for@
                &&& deadline is Some ==> wait_for@ == pre.runner.wait_for@ | 8
                &&& !pre.poll_due
            }
            &&& result matches Err(error) ==> {
                &&& error == IncrementalDriverError::Arbiter(
                    CommandArbiterError::InvalidTransition,
                )
                &&& pre.runner.wait_for@ & 1 == 1
                &&& ready@ & 1 == 1
            }
        },
{
    let bits = pre.runner.wait_for@;
    let plain = ready@;
    lemma_offered_source(bits, plain, 1);
    lemma_offered_source(bits, plain | 2, 1);
    lemma_offered_source(bits | 8, plain, 1);
    lemma_offered_source(bits | 8, plain | 2, 1);
    lemma_offered_source(bits, plain, 2);
    lemma_offered_source(bits, plain | 2, 2);
    lemma_offered_source(bits | 8, plain, 2);
    lemma_offered_source(bits | 8, plain | 2, 2);
    crate::incremental::runner::choice_is_offered(
        pre.runner.next,
        pre.subscribed(deadline).wait_for@ & pre.effective_ready(ready)@,
    );
    if pre.poll_due {
        assert(crate::incremental::runner::offers(
            pre.subscribed(deadline).wait_for@ & pre.effective_ready(ready)@,
            WakeReason::Backend,
        ));
    }
}

/// What is announced to the platform: work that needs no wake is announced as
/// immediate, an idle driver waits for nothing, and otherwise the sources are those
/// of the active operation, with the timer and its deadline exactly while the
/// backend has one.
pub proof fn intent_announces_what_is_waited_for(pre: DriverModel, deadline: Option<u64>)
    requires
        pre.wf(),
    ensures
        ({
            let intent = pre.intent(deadline);
            &&& pre.commands.active is None ==> {
                &&& intent.run_immediately <==> pre.commands.pending is Some
                &&& intent.sources@ == 0
                &&& intent.deadline_us is None
            }
            &&& pre.commands.active matches Some(active) ==> {
                &&& intent.run_immediately <==> {
                    ||| pre.commands.pending is Some && !active.cancel_requested
                    ||| pre.poll_due
                    ||| pre.runner.wait_for@ == 0
                }
                &&& intent.run_immediately ==> intent.sources@ == 0 && intent.deadline_us is None
                &&& !intent.run_immediately ==> {
                    &&& intent.deadline_us == deadline
                    &&& deadline is None ==> intent.sources@ == pre.runner.wait_for@
                    &&& deadline is Some ==> intent.sources@ == pre.runner.wait_for@ | 8
                }
            }
        }),
{
}

/// The budget that a driver is built with is the one that the backend is handed in
/// every poll: no step and no cancellation request changes it.
pub proof fn driver_keeps_the_given_budget<B: IncrementalWifiBackend>()
    ensures
        forall|backend: B, budget: WorkBudget, driver: IncrementalBackendDriver<B>| #[trigger]
            call_ensures(IncrementalBackendDriver::<B>::new, (backend, budget), driver) ==> {
                &&& driver@.budget == budget
                &&& driver@.commands.active is None
                &&& driver@.commands.pending is None
                &&& driver.backend_state() == backend
            },
        forall|
            slot: &mut IncrementalBackendDriver<B>,
            ready: WaitSet,
            output: &mut [ScanResult],
            result: Result<IncrementalDriverEvent, IncrementalDriverError>,
        | #[trigger]
            call_ensures(
                IncrementalBackendDriver::<B>::drive_once,
                (slot, ready, output),
                result,
            ) && slot.wf() ==> {
                &&& final(slot)@.budget == slot@.budget
                &&& slot@.is_cancelling() && (final(slot).backend_state() != slot.backend_state()
                    || final(output)@ != output@) ==> exists|
                    reason: WakeReason,
                    answer: Result<WorkReport, BackendError>,
                | #[trigger]
                    B::polls(
                        slot.backend_state(),
                        slot@.commands.active->Some_0.operation,
                        reason,
                        slot@.budget,
                        output@,
                        final(slot).backend_state(),
                        final(output)@,
                        answer,
                    )
            },
        forall|
            slot: &mut IncrementalBackendDriver<B>,
            sequence: CommandSequence,
            result: Result<Option<IncrementalDriverEvent>, IncrementalDriverError>,
        | #[trigger]
            call_ensures(
                IncrementalBackendDriver::<B>::request_cancel,
                (slot, sequence),
                result,
            ) && slot.wf() ==> final(slot)@.budget == slot@.budget,
{
    assert forall|
        slot: &mut IncrementalBackendDriver<B>,
        ready: WaitSet,
        output: &mut [ScanResult],
        result: Result<IncrementalDriverEvent, IncrementalDriverError>,
    | #[trigger]
        call_ensures(IncrementalBackendDriver::<B>::drive_once, (slot, ready, output), result)
            && slot.wf() implies {
        &&& final(slot)@.budget == slot@.budget
        &&& slot@.is_cancelling() && (final(slot).backend_state() != slot.backend_state()
            || final(output)@ != output@) ==> exists|
            reason: WakeReason,
            answer: Result<WorkReport, BackendError>,
        |
            #[trigger] B::polls(
                slot.backend_state(),
                slot@.commands.active->Some_0.operation,
                reason,
                slot@.budget,
                output@,
                final(slot).backend_state(),
                final(output)@,
                answer,
            )
    } by {
        let (call, deadline) = choose|call: Option<IncrementalCall>, deadline: Option<u64>|
            {
                &&& #[trigger] drives(slot@, ready, deadline, call, final(slot)@, result)
                &&& crate::incremental::backend_steps(
                    slot.backend_state(),
                    output@,
                    call,
                    final(slot).backend_state(),
                )
                &&& final(output)@ == crate::incremental::buffer_after(output@, call)
            };
        if let Some(
            IncrementalCall::Poll { operation, reason, budget, output: filled, result: answer },
        ) = call {
            assert(B::polls(
                slot.backend_state(),
                operation,
                reason,
                budget,
                output@,
                final(slot).backend_state(),
                filled,
                answer,
            ));
        }
    }
}

/// A request to cancel finds something to do exactly where the driver owns the
/// command and has not cancelled it yet, and then it reports what it did.
pub proof fn cancellation_request_reports_what_it_did(
    pre: DriverModel,
    sequence: CommandSequence,
    call: Option<IncrementalCall>,
    post: DriverModel,
    event: Option<IncrementalDriverEvent>,
)
    requires
        pre.wf(),
        answers_cancellation(pre, sequence, call, post, event),
    ensures
        event is Some <==> pre.cancels_on_request(sequence),
        event is Some <==> {
            ||| pre.commands.active matches Some(active) && active.sequence == sequence
                && !active.cancel_requested
            ||| !(pre.commands.active matches Some(active) && active.sequence == sequence)
                && (pre.commands.pending matches Some((owner, _)) && owner == sequence)
        },
{
}

/// A deadline is never made up: a driver announces one, and waits for the timer
/// beside what its operation asked for, only where the backend answered it for that
/// operation.
pub proof fn deadline_is_the_backends<B: IncrementalWifiBackend>(
    backend: B,
    pre: DriverModel,
    intent: IncrementalWaitIntent,
    ready: WaitSet,
    given: Seq<ScanResult>,
    after: B,
    post: DriverModel,
    output: Seq<ScanResult>,
    result: Result<IncrementalDriverEvent, IncrementalDriverError>,
)
    requires
        pre.wf(),
    ensures
        intent_answered(backend, pre, intent) ==> {
            &&& intent.deadline_us is Some ==> (pre.commands.active matches Some(active)
                && backend.answers_deadline(active.operation, intent.deadline_us))
            &&& pre.commands.active is Some && intent.deadline_us is None ==> intent.sources@
                == pre.runner.wait_for@ || intent.sources@ == 0
        },
        driver_steps(backend, pre, ready, given, after, post, output, result) ==> {
            result matches Ok(IncrementalDriverEvent::Waiting { wait_for, .. }) && wait_for@
                != pre.runner.wait_for@ ==> exists|deadline: u64|
                #[trigger] backend.answers_deadline(
                    pre.commands.active->Some_0.operation,
                    Some(deadline),
                )
        },
{
    if driver_steps(backend, pre, ready, given, after, post, output, result) {
        let (call, deadline) = choose|call: Option<IncrementalCall>, deadline: Option<u64>|
            {
                &&& #[trigger] drives(pre, ready, deadline, call, post, result)
                &&& crate::incremental::backend_steps(backend, given, call, after)
                &&& pre.commands.action() is WaitActive ==> deadline_answered(
                    backend,
                    pre,
                    deadline,
                )
                &&& output == crate::incremental::buffer_after(given, call)
            };
        if let Some(told) = deadline {
            if pre.commands.action() is WaitActive {
                assert(backend.answers_deadline(
                    pre.commands.active->Some_0.operation,
                    Some(told),
                ));
            }
        }
    }
}

} // verus!
