//! Bounded incremental backend contract.
//!
//! This module fixes the operation identity, cancellation, work-budget, and
//! wait-set vocabulary shared by the incremental runner and its backends. A
//! backend is advanced only through repeated bounded polls.

use vstd::prelude::*;

pub mod command;
pub mod counters;
pub mod driver;
pub mod facade;
pub mod runner;
pub mod wait;

pub use crate::incremental::command::{
    CommandArbiter, CommandArbiterAction, CommandArbiterError, CommandSequence, PendingCommand,
    SubmitError,
};
pub use crate::incremental::counters::IncrementalRunnerDiagnostics;
pub use crate::incremental::driver::{
    IncrementalBackendDriver, IncrementalDriverError, IncrementalDriverEvent,
};
pub use crate::incremental::facade::{
    IncrementalRadioParts, IncrementalRadioRunner, IncrementalRadioRunnerError, ReadyWait,
};
pub use crate::incremental::runner::{
    CancelDirective, FairWakeSelector, IncrementalRunnerState, RunnerStateError, RunnerStep,
    RunnerTransition,
};
pub use crate::incremental::wait::{
    IncrementalWaitError, IncrementalWaitIntent, IncrementalWaitPlatform, PollState, WaitSet,
    WakeReason,
};
use crate::wifi::{
    BackendError, ConnectionInfo, ScanConfig, ScanOutcome, ScanResult, StationConfig,
    WifiConfig, WifiL2Capabilities,
};

verus! {

/// Identity of one backend operation slot and its current generation.
///
/// Reusing a slot moves to another generation, so a completion retained from an
/// earlier operation cannot complete the new operation accidentally.
#[derive(Clone, Copy, Debug, PartialEq, Eq, Hash, Structural)]
pub struct OperationId {
    pub(crate) slot: u8,
    pub(crate) generation: u32,
}

impl OperationId {
    /// The slot and the generation.
    pub open(crate) spec fn view(&self) -> (u8, u32) {
        (self.slot, self.generation)
    }

    /// The identity of `generation` in `slot`.
    pub open(crate) spec fn of(slot: u8, generation: u32) -> Self {
        OperationId { slot, generation }
    }

    #[verifier::type_invariant]
    spec fn wf(self) -> bool {
        self.generation != 0
    }

    /// Operation slot selected by the runner.
    pub fn slot(self) -> (slot: u8)
        ensures
            slot == self@.0,
    {
        self.slot
    }

    /// Non-zero identity generation for this use of the slot.
    pub fn generation(self) -> (generation: u32)
        ensures
            generation == self@.1,
            generation != 0,
    {
        proof {
            use_type_invariant(&self);
        }
        self.generation
    }
}

/// An identity is exactly its slot and its generation.
pub proof fn identity_is_slot_and_generation(a: OperationId, b: OperationId)
    ensures
        a == b <==> a@ == b@,
        OperationId::of(a@.0, a@.1) == a,
{
}

/// The generation that follows `generation`: counting up, skipping zero when
/// the counter wraps.
pub open spec fn next_generation(generation: u32) -> u32 {
    if generation == u32::MAX {
        1
    } else {
        (generation + 1) as u32
    }
}

/// The generation reached after `steps` uses of the slot.
pub open spec fn generation_after(generation: u32, steps: nat) -> u32
    decreases steps,
{
    if steps == 0 {
        generation
    } else {
        next_generation(generation_after(generation, (steps - 1) as nat))
    }
}

/// Closed form of [`generation_after`] for a generation that is in use.
proof fn lemma_generation_after(generation: u32, steps: nat)
    requires
        generation != 0,
    ensures
        generation_after(generation, steps) == (generation - 1 + steps) % 0xffff_ffff + 1,
    decreases steps,
{
    if steps > 0 {
        lemma_generation_after(generation, (steps - 1) as nat);
        let before: int = generation - 1 + (steps - 1);
        assert((before + 1) % 0xffff_ffff == if before % 0xffff_ffff == 0xffff_fffe {
            0
        } else {
            before % 0xffff_ffff + 1
        });
    } else {
        assert((generation - 1) % 0xffff_ffff == generation - 1);
    }
}

/// Reusing a slot never yields the identity of any of its last `u32::MAX - 1`
/// uses: however many operations in between (fewer than `u32::MAX`), the
/// generation is non-zero and differs.
pub proof fn slot_reuse_changes_the_generation(generation: u32, steps: nat)
    requires
        generation != 0,
        0 < steps < u32::MAX,
    ensures
        generation_after(generation, steps) != 0,
        generation_after(generation, steps) != generation,
{
    lemma_generation_after(generation, steps);
    let start: int = generation - 1;
    if start + steps < 0xffff_ffff {
        assert((start + steps) % 0xffff_ffff == start + steps);
    } else {
        assert((start + steps) % 0xffff_ffff == start + steps - 0xffff_ffff);
    }
}

/// Explicit lifecycle of the single operation tracked by a runner slot.
#[derive(Clone, Copy, Debug, PartialEq, Eq, Structural)]
pub enum OperationLifecycle {
    /// Accepted by the runner but not yet handed to the backend.
    Queued,
    /// Accepted by the backend and eligible for bounded polling.
    Started,
    /// Cancellation was requested; only a cancelled or terminal result may follow.
    CancelRequested,
    /// One terminal result has been committed and awaits collection.
    Terminal,
}

/// Rejection of an operation lifecycle transition.
#[derive(Clone, Copy, Debug, PartialEq, Eq, Structural)]
pub enum OperationStateError {
    /// The one operation slot is still owned by another live operation.
    Busy,
    /// The supplied identity refers to an older generation or another slot.
    Stale,
    /// The requested transition is not legal from the current lifecycle state.
    InvalidTransition,
    /// A terminal result has already been committed.
    AlreadyTerminal,
}

/// Whether a cancellation request changed the operation state.
#[derive(Clone, Copy, Debug, PartialEq, Eq, Structural)]
pub enum CancelOutcome {
    /// The operation moved to `CancelRequested`.
    Requested,
    /// Cancellation had already been requested for this operation.
    AlreadyRequested,
}

/// The generation counter and the operation that occupies the slot.
pub struct TrackerModel {
    /// Last generation handed out, zero before the first.
    pub generation: u32,
    /// Operation in the slot and where it stands.
    pub current: Option<(OperationId, OperationLifecycle)>,
}

impl TrackerModel {
    /// Where `id` stands; an identity that is not in the slot is stale.
    pub open spec fn lifecycle(self, id: OperationId) -> Result<
        OperationLifecycle,
        OperationStateError,
    > {
        match self.current {
            Some((current, lifecycle)) => if current == id {
                Ok(lifecycle)
            } else {
                Err(OperationStateError::Stale)
            },
            None => Err(OperationStateError::Stale),
        }
    }

    /// The slot holds `id` at `lifecycle`.
    pub open spec fn at(self, id: OperationId, lifecycle: OperationLifecycle) -> Self {
        TrackerModel { current: Some((id, lifecycle)), ..self }
    }

    /// The operation that a queue request would create.
    pub open spec fn next_id(self, slot: u8) -> OperationId {
        OperationId::of(slot, next_generation(self.generation))
    }
}

/// A slot that is used again refuses the identity of its last use: whatever is
/// asked in its name is stale.
pub proof fn reused_slot_refuses_the_old_identity(
    model: TrackerModel,
    id: OperationId,
    slot: u8,
    lifecycle: OperationLifecycle,
)
    requires
        model.generation == id@.1,
    ensures
        model.next_id(slot) != id,
        (TrackerModel {
            generation: next_generation(model.generation),
            current: Some((model.next_id(slot), lifecycle)),
        }).lifecycle(id) is Err,
        (TrackerModel {
            generation: next_generation(model.generation),
            current: Some((model.next_id(slot), lifecycle)),
        }).lifecycle(id)->Err_0 == OperationStateError::Stale,
{
}

/// Small state machine for one operation slot.
///
/// It intentionally tracks one slot: the controller serializes control
/// operations. Every transition names the operation it means, so an identity
/// from an earlier use of the slot changes nothing.
#[derive(Debug)]
pub struct OperationTracker {
    next_generation: u32,
    current: Option<(OperationId, OperationLifecycle)>,
}

impl OperationTracker {
    /// The generation counter and the occupied slot.
    pub closed spec fn view(&self) -> TrackerModel {
        TrackerModel { generation: self.next_generation, current: self.current }
    }

    /// Construct an idle tracker.
    pub fn new() -> (tracker: Self)
        ensures
            tracker@ == (TrackerModel { generation: 0, current: None }),
    {
        OperationTracker { next_generation: 0, current: None }
    }

    /// Queue a new operation in `slot` and allocate its identity generation.
    pub fn queue(&mut self, slot: u8) -> (result: Result<OperationId, OperationStateError>)
        ensures
            match result {
                Ok(id) => {
                    &&& old(self)@.current is None
                    &&& id == old(self)@.next_id(slot)
                    &&& final(self)@ == (TrackerModel {
                        generation: next_generation(old(self)@.generation),
                        current: Some((id, OperationLifecycle::Queued)),
                    })
                },
                Err(error) => {
                    &&& old(self)@.current is Some
                    &&& error == OperationStateError::Busy
                    &&& final(self)@ == old(self)@
                },
            },
    {
        if self.current.is_some() {
            return Err(OperationStateError::Busy);
        }
        self.next_generation = self.next_generation.wrapping_add(1);
        if self.next_generation == 0 {
            self.next_generation = 1;
        }
        let id = OperationId { slot, generation: self.next_generation };
        self.current = Some((id, OperationLifecycle::Queued));
        Ok(id)
    }

    /// Return the current operation and lifecycle, if the slot is occupied.
    pub fn current(&self) -> (current: Option<(OperationId, OperationLifecycle)>)
        ensures
            current == self@.current,
    {
        self.current
    }

    /// Mark a queued operation as accepted by the backend.
    pub fn mark_started(&mut self, id: OperationId) -> (result: Result<(), OperationStateError>)
        ensures
            match old(self)@.lifecycle(id) {
                Ok(OperationLifecycle::Queued) => {
                    &&& result is Ok
                    &&& final(self)@ == old(self)@.at(id, OperationLifecycle::Started)
                },
                Ok(_) => {
                    &&& result is Err
                    &&& result->Err_0 == OperationStateError::InvalidTransition
                    &&& final(self)@ == old(self)@
                },
                Err(error) => {
                    &&& result is Err
                    &&& result->Err_0 == error
                    &&& final(self)@ == old(self)@
                },
            },
    {
        match self.lifecycle(id) {
            Err(error) => Err(error),
            Ok(OperationLifecycle::Queued) => {
                self.current = Some((id, OperationLifecycle::Started));
                Ok(())
            },
            Ok(_) => Err(OperationStateError::InvalidTransition),
        }
    }

    /// Request cancellation without committing a terminal result.
    pub fn request_cancel(&mut self, id: OperationId) -> (result: Result<
        CancelOutcome,
        OperationStateError,
    >)
        ensures
            match old(self)@.lifecycle(id) {
                Ok(OperationLifecycle::Queued) | Ok(OperationLifecycle::Started) => {
                    &&& result is Ok
                    &&& result->Ok_0 == CancelOutcome::Requested
                    &&& final(self)@ == old(self)@.at(id, OperationLifecycle::CancelRequested)
                },
                Ok(OperationLifecycle::CancelRequested) => {
                    &&& result is Ok
                    &&& result->Ok_0 == CancelOutcome::AlreadyRequested
                    &&& final(self)@ == old(self)@
                },
                Ok(OperationLifecycle::Terminal) => {
                    &&& result is Err
                    &&& result->Err_0 == OperationStateError::AlreadyTerminal
                    &&& final(self)@ == old(self)@
                },
                Err(error) => {
                    &&& result is Err
                    &&& result->Err_0 == error
                    &&& final(self)@ == old(self)@
                },
            },
    {
        match self.lifecycle(id) {
            Err(error) => Err(error),
            Ok(OperationLifecycle::Queued) | Ok(OperationLifecycle::Started) => {
                self.current = Some((id, OperationLifecycle::CancelRequested));
                Ok(CancelOutcome::Requested)
            },
            Ok(OperationLifecycle::CancelRequested) => Ok(CancelOutcome::AlreadyRequested),
            Ok(OperationLifecycle::Terminal) => Err(OperationStateError::AlreadyTerminal),
        }
    }

    /// Commit the operation's sole terminal result.
    ///
    /// The return value says whether cancellation was pending when the result
    /// became terminal. A runner must suppress a late success when it is `true`.
    pub fn commit_terminal(&mut self, id: OperationId) -> (result: Result<
        bool,
        OperationStateError,
    >)
        ensures
            match old(self)@.lifecycle(id) {
                Ok(OperationLifecycle::Started) => {
                    &&& result is Ok
                    &&& result->Ok_0 == false
                    &&& final(self)@ == old(self)@.at(id, OperationLifecycle::Terminal)
                },
                Ok(OperationLifecycle::CancelRequested) => {
                    &&& result is Ok
                    &&& result->Ok_0 == true
                    &&& final(self)@ == old(self)@.at(id, OperationLifecycle::Terminal)
                },
                Ok(OperationLifecycle::Queued) => {
                    &&& result is Err
                    &&& result->Err_0 == OperationStateError::InvalidTransition
                    &&& final(self)@ == old(self)@
                },
                Ok(OperationLifecycle::Terminal) => {
                    &&& result is Err
                    &&& result->Err_0 == OperationStateError::AlreadyTerminal
                    &&& final(self)@ == old(self)@
                },
                Err(error) => {
                    &&& result is Err
                    &&& result->Err_0 == error
                    &&& final(self)@ == old(self)@
                },
            },
    {
        let cancelled = match self.lifecycle(id) {
            Err(error) => return Err(error),
            Ok(OperationLifecycle::Started) => false,
            Ok(OperationLifecycle::CancelRequested) => true,
            Ok(OperationLifecycle::Queued) => return Err(OperationStateError::InvalidTransition),
            Ok(OperationLifecycle::Terminal) => return Err(OperationStateError::AlreadyTerminal),
        };
        self.current = Some((id, OperationLifecycle::Terminal));
        Ok(cancelled)
    }

    /// Mark a queued request terminal when the backend rejects `start`.
    pub fn reject_queued(&mut self, id: OperationId) -> (result: Result<(), OperationStateError>)
        ensures
            match old(self)@.lifecycle(id) {
                Ok(OperationLifecycle::Queued) => {
                    &&& result is Ok
                    &&& final(self)@ == old(self)@.at(id, OperationLifecycle::Terminal)
                },
                Ok(_) => {
                    &&& result is Err
                    &&& result->Err_0 == OperationStateError::InvalidTransition
                    &&& final(self)@ == old(self)@
                },
                Err(error) => {
                    &&& result is Err
                    &&& result->Err_0 == error
                    &&& final(self)@ == old(self)@
                },
            },
    {
        match self.lifecycle(id) {
            Err(error) => Err(error),
            Ok(OperationLifecycle::Queued) => {
                self.current = Some((id, OperationLifecycle::Terminal));
                Ok(())
            },
            Ok(_) => Err(OperationStateError::InvalidTransition),
        }
    }

    /// Release a collected terminal operation so the slot may be reused.
    pub fn reap(&mut self, id: OperationId) -> (result: Result<(), OperationStateError>)
        ensures
            match old(self)@.lifecycle(id) {
                Ok(OperationLifecycle::Terminal) => {
                    &&& result is Ok
                    &&& final(self)@ == (TrackerModel { current: None, ..old(self)@ })
                },
                Ok(_) => {
                    &&& result is Err
                    &&& result->Err_0 == OperationStateError::InvalidTransition
                    &&& final(self)@ == old(self)@
                },
                Err(error) => {
                    &&& result is Err
                    &&& result->Err_0 == error
                    &&& final(self)@ == old(self)@
                },
            },
    {
        match self.lifecycle(id) {
            Err(error) => Err(error),
            Ok(OperationLifecycle::Terminal) => {
                self.current = None;
                Ok(())
            },
            Ok(_) => Err(OperationStateError::InvalidTransition),
        }
    }

    /// Return the lifecycle of `id`, rejecting stale identities.
    pub fn lifecycle(&self, id: OperationId) -> (result: Result<
        OperationLifecycle,
        OperationStateError,
    >)
        ensures
            result == self@.lifecycle(id),
    {
        match self.current {
            None => Err(OperationStateError::Stale),
            Some((current, lifecycle)) => if current == id {
                Ok(lifecycle)
            } else {
                Err(OperationStateError::Stale)
            },
        }
    }
}

impl Default for OperationTracker {
    fn default() -> (tracker: Self)
        ensures
            tracker@ == (TrackerModel { generation: 0, current: None }),
    {
        OperationTracker::new()
    }
}

/// Upper bound granted to one incremental backend poll.
#[derive(Clone, Copy, Debug, PartialEq, Eq, Structural)]
pub struct WorkBudget {
    max_events: u16,
    max_time_us: u32,
}

impl WorkBudget {
    /// The event bound and the time bound.
    pub closed spec fn view(&self) -> (u16, u32) {
        (self.max_events, self.max_time_us)
    }

    #[verifier::type_invariant]
    spec fn wf(self) -> bool {
        self.max_events != 0 && self.max_time_us != 0
    }

    /// Construct a non-empty event and elapsed-time budget.
    pub fn try_new(max_events: u16, max_time_us: u32) -> (budget: Option<Self>)
        ensures
            budget is Some <==> max_events != 0 && max_time_us != 0,
            budget matches Some(b) ==> b@ == (max_events, max_time_us),
    {
        if max_events == 0 || max_time_us == 0 {
            None
        } else {
            Some(WorkBudget { max_events, max_time_us })
        }
    }

    /// Maximum backend events that may be consumed by one poll.
    pub fn max_events(self) -> (max_events: u16)
        ensures
            max_events == self@.0,
            max_events != 0,
    {
        proof {
            use_type_invariant(&self);
        }
        self.max_events
    }

    /// Maximum elapsed backend time, in microseconds, for one poll.
    pub fn max_time_us(self) -> (max_time_us: u32)
        ensures
            max_time_us == self@.1,
            max_time_us != 0,
    {
        proof {
            use_type_invariant(&self);
        }
        self.max_time_us
    }
}

/// Request moved into an incremental backend.
#[derive(Debug)]
pub enum IncrementalRequest {
    /// Initialize the radio runtime.
    Initialize(WifiConfig),
    /// Start one bounded scan.
    Scan(ScanConfig),
    /// Associate and authorize one station.
    Connect(StationConfig),
    /// Disconnect the station interface.
    Disconnect(WifiConfig),
}

/// Typed successful terminal result from an incremental backend.
#[derive(Clone, Copy, Debug, PartialEq, Eq)]
pub enum IncrementalCompletion {
    /// Initialization completed.
    Initialized,
    /// Scan completed and wrote results into the runner-owned buffer.
    Scan(ScanOutcome),
    /// Association and authorization completed.
    Connected(ConnectionInfo),
    /// Disconnection completed.
    Disconnected,
}

/// State returned by one bounded backend poll.
#[derive(Clone, Copy, Debug, PartialEq, Eq)]
pub enum PollDisposition {
    /// No terminal result; wait for these sources before polling again.
    Pending(WaitSet),
    /// One successful terminal result is ready.
    Complete(IncrementalCompletion),
    /// Cancellation reached a terminal state.
    Cancelled,
    /// The poll consumed its granted budget and requires another fair turn.
    BudgetExhausted(WaitSet),
}

/// What one backend poll did.
pub struct ReportModel {
    /// Operation advanced by the poll.
    pub operation: OperationId,
    /// Backend events consumed.
    pub consumed_events: u16,
    /// Backend-measured time in microseconds.
    pub elapsed_us: u32,
    /// Protocol-visible state changed.
    pub made_progress: bool,
    /// Pending, complete, or cancelled.
    pub disposition: PollDisposition,
}

impl ReportModel {
    /// Both dimensions of the budget were respected.
    pub open spec fn within(self, budget: WorkBudget) -> bool {
        self.consumed_events <= budget@.0 && self.elapsed_us <= budget@.1
    }

    /// One dimension of the budget was used up completely.
    pub open spec fn exhausts(self, budget: WorkBudget) -> bool {
        self.consumed_events == budget@.0 || self.elapsed_us == budget@.1
    }

    /// The report is an account that a poll within `budget` may give: it stays
    /// within the budget, claims exhaustion only when a dimension is used up,
    /// and waits for nothing only after progress.
    pub open spec fn admissible(self, budget: WorkBudget) -> bool {
        &&& self.within(budget)
        &&& self.disposition is BudgetExhausted ==> self.exhausts(budget)
        &&& (self.disposition matches PollDisposition::Pending(wait) ==> wait@ == 0
            ==> self.made_progress)
    }
}

/// Verified accounting for one backend poll.
#[derive(Clone, Copy, Debug, PartialEq, Eq)]
pub struct WorkReport {
    operation: OperationId,
    consumed_events: u16,
    elapsed_us: u32,
    made_progress: bool,
    disposition: PollDisposition,
}

impl WorkReport {
    /// What the poll did.
    pub closed spec fn view(&self) -> ReportModel {
        ReportModel {
            operation: self.operation,
            consumed_events: self.consumed_events,
            elapsed_us: self.elapsed_us,
            made_progress: self.made_progress,
            disposition: self.disposition,
        }
    }

    /// Construct a report only when both budget dimensions were respected.
    pub fn try_new(
        operation: OperationId,
        budget: WorkBudget,
        consumed_events: u16,
        elapsed_us: u32,
        made_progress: bool,
        disposition: PollDisposition,
    ) -> (report: Option<Self>)
        ensures
            ({
                let account = ReportModel {
                    operation,
                    consumed_events,
                    elapsed_us,
                    made_progress,
                    disposition,
                };
                &&& report is Some <==> account.admissible(budget)
                &&& report matches Some(r) ==> r@ == account
            }),
    {
        if consumed_events > budget.max_events || elapsed_us > budget.max_time_us {
            return None;
        }
        match disposition {
            PollDisposition::BudgetExhausted(_) => {
                if consumed_events != budget.max_events && elapsed_us != budget.max_time_us {
                    return None;
                }
            },
            PollDisposition::Pending(wait) => {
                if wait.is_empty() && !made_progress {
                    return None;
                }
            },
            _ => {},
        }
        Some(WorkReport { operation, consumed_events, elapsed_us, made_progress, disposition })
    }

    /// Operation identity advanced by this report.
    pub fn operation(self) -> (operation: OperationId)
        ensures
            operation == self@.operation,
    {
        self.operation
    }

    /// Number of protocol/backend events consumed by this poll.
    pub fn consumed_events(self) -> (consumed_events: u16)
        ensures
            consumed_events == self@.consumed_events,
    {
        self.consumed_events
    }

    /// Backend-measured elapsed time in microseconds.
    pub fn elapsed_us(self) -> (elapsed_us: u32)
        ensures
            elapsed_us == self@.elapsed_us,
    {
        self.elapsed_us
    }

    /// Whether the backend changed protocol-visible state.
    pub fn made_progress(self) -> (made_progress: bool)
        ensures
            made_progress == self@.made_progress,
    {
        self.made_progress
    }

    /// Pending, complete, or cancelled result.
    pub fn disposition(self) -> (disposition: PollDisposition)
        ensures
            disposition == self@.disposition,
    {
        self.disposition
    }
}

/// One mutating call made to an [`IncrementalWifiBackend`], with what it was
/// handed and what it returned.
#[allow(inconsistent_fields)]
pub enum IncrementalCall {
    /// `start` was called.
    Start {
        /// Identity handed over.
        operation: OperationId,
        /// Request handed over.
        request: IncrementalRequest,
        /// Value returned.
        result: Result<(), BackendError>,
    },
    /// `poll` was called.
    Poll {
        /// Identity handed over.
        operation: OperationId,
        /// Wake reason handed over.
        reason: WakeReason,
        /// Budget handed over.
        budget: WorkBudget,
        /// Scan buffer as the call left it.
        output: Seq<ScanResult>,
        /// Value returned.
        result: Result<WorkReport, BackendError>,
    },
    /// `cancel` was called.
    Cancel {
        /// Identity handed over.
        operation: OperationId,
        /// Value returned.
        result: Result<(), BackendError>,
    },
}

/// Bounded backend contract.
///
/// `start`, `poll`, and `cancel` are called only by the unique radio runner.
/// Implementations must not invoke application callbacks. All long-running work
/// is advanced by repeated bounded `poll` calls.
///
/// What a call returns is the backend's own decision. Each call has a relation
/// between the backend before and after it, what it was handed, and what it
/// returned. An implementation states there what it promises; the relations hold
/// of everything unless it does. Contracts of callers use them to say which call
/// was made, with what, and what came back.
pub trait IncrementalWifiBackend: Sized {
    /// `start` may turn `before` into `after`, handed the identity and the
    /// request.
    open spec fn starts(
        before: Self,
        id: OperationId,
        request: IncrementalRequest,
        after: Self,
        result: Result<(), BackendError>,
    ) -> bool {
        true
    }

    /// `poll` may turn `before` into `after` and the scan buffer `given` into
    /// `output`.
    open spec fn polls(
        before: Self,
        id: OperationId,
        reason: WakeReason,
        budget: WorkBudget,
        given: Seq<ScanResult>,
        after: Self,
        output: Seq<ScanResult>,
        result: Result<WorkReport, BackendError>,
    ) -> bool {
        true
    }

    /// `cancel` may turn `before` into `after`.
    open spec fn cancels(
        before: Self,
        id: OperationId,
        after: Self,
        result: Result<(), BackendError>,
    ) -> bool {
        true
    }

    /// `next_deadline_us` may answer this.
    open spec fn answers_deadline(&self, id: OperationId, deadline_us: Option<u64>) -> bool {
        true
    }

    /// `l2_capabilities` may answer this.
    open spec fn answers_capabilities(&self, capabilities: Option<WifiL2Capabilities>) -> bool {
        true
    }

    /// Accept an operation identity and owned request.
    fn start(&mut self, id: OperationId, request: IncrementalRequest) -> (result: Result<
        (),
        BackendError,
    >)
        ensures
            Self::starts(*old(self), id, request, *final(self), result),
    ;

    /// Advance one operation without exceeding `budget`.
    fn poll(
        &mut self,
        id: OperationId,
        reason: WakeReason,
        budget: WorkBudget,
        scan_output: &mut [ScanResult],
    ) -> (result: Result<WorkReport, BackendError>)
        ensures
            Self::polls(
                *old(self),
                id,
                reason,
                budget,
                old(scan_output)@,
                *final(self),
                final(scan_output)@,
                result,
            ),
            final(scan_output)@.len() == old(scan_output)@.len(),
    ;

    /// Request cancellation. Terminal cancellation is observed through `poll`.
    fn cancel(&mut self, id: OperationId) -> (result: Result<(), BackendError>)
        ensures
            Self::cancels(*old(self), id, *final(self), result),
    ;

    /// Monotonic deadline for the next timer wake, in microseconds.
    fn next_deadline_us(&self, id: OperationId) -> (deadline_us: Option<u64>)
        ensures
            self.answers_deadline(id, deadline_us),
    ;

    /// Link-layer properties, once initialization made them known.
    ///
    /// A backend that reports none may keep the default implementation.
    fn l2_capabilities(&self) -> (capabilities: Option<WifiL2Capabilities>)
        ensures
            self.answers_capabilities(capabilities) || capabilities is None,
    {
        None
    }
}

/// `call`, if any, is the one backend call that turned `before` into `after`,
/// handed the scan buffer `given`.
pub open spec fn backend_steps<B: IncrementalWifiBackend>(
    before: B,
    given: Seq<ScanResult>,
    call: Option<IncrementalCall>,
    after: B,
) -> bool {
    match call {
        None => after == before,
        Some(IncrementalCall::Start { operation, request, result }) => B::starts(
            before,
            operation,
            request,
            after,
            result,
        ),
        Some(IncrementalCall::Poll { operation, reason, budget, output, result }) => B::polls(
            before,
            operation,
            reason,
            budget,
            given,
            after,
            output,
            result,
        ),
        Some(IncrementalCall::Cancel { operation, result }) => B::cancels(
            before,
            operation,
            after,
            result,
        ),
    }
}

/// The scan buffer after `call`: only a poll writes it.
pub open spec fn buffer_after(given: Seq<ScanResult>, call: Option<IncrementalCall>) -> Seq<
    ScanResult,
> {
    match call {
        Some(IncrementalCall::Poll { output, .. }) => output,
        _ => given,
    }
}

/// Generations count up from one and skip zero when they wrap.
pub proof fn generations_count_up(generation: u32)
    ensures
        generation < u32::MAX ==> next_generation(generation) - generation == 1,
        next_generation(u32::MAX) == 1,
{
}

/// A budget comes back in both dimensions, and exactly a budget that grants some
/// events and some time is accepted.
pub proof fn budget_comes_back(
    max_events: u16,
    max_time_us: u32,
    made: Option<WorkBudget>,
    events: u16,
    time_us: u32,
)
    requires
        call_ensures(WorkBudget::try_new, (max_events, max_time_us), made),
        made matches Some(budget) ==> call_ensures(WorkBudget::max_events, (budget,), events),
        made matches Some(budget) ==> call_ensures(WorkBudget::max_time_us, (budget,), time_us),
    ensures
        made is None <==> max_events == 0 || max_time_us == 0,
        made is Some ==> events == max_events && time_us == max_time_us,
{
}

/// A report is accepted exactly when it is an account of a poll within its budget:
/// neither dimension is exceeded, an exhausted budget has a dimension that is used
/// up, and a poll that waits for nothing made progress. An accepted report says what
/// it was made of.
pub proof fn report_is_held_to_its_budget(
    operation: OperationId,
    budget: WorkBudget,
    max_events: u16,
    max_time_us: u32,
    consumed_events: u16,
    elapsed_us: u32,
    made_progress: bool,
    disposition: PollDisposition,
    made: Option<WorkReport>,
    kept_operation: OperationId,
    kept_events: u16,
    kept_time: u32,
    kept_progress: bool,
    kept_disposition: PollDisposition,
)
    requires
        call_ensures(WorkBudget::max_events, (budget,), max_events),
        call_ensures(WorkBudget::max_time_us, (budget,), max_time_us),
        call_ensures(
            WorkReport::try_new,
            (operation, budget, consumed_events, elapsed_us, made_progress, disposition),
            made,
        ),
        made matches Some(report) ==> call_ensures(
            WorkReport::operation,
            (report,),
            kept_operation,
        ),
        made matches Some(report) ==> call_ensures(
            WorkReport::consumed_events,
            (report,),
            kept_events,
        ),
        made matches Some(report) ==> call_ensures(WorkReport::elapsed_us, (report,), kept_time),
        made matches Some(report) ==> call_ensures(
            WorkReport::made_progress,
            (report,),
            kept_progress,
        ),
        made matches Some(report) ==> call_ensures(
            WorkReport::disposition,
            (report,),
            kept_disposition,
        ),
    ensures
        made is None <==> {
            ||| consumed_events > max_events
            ||| elapsed_us > max_time_us
            ||| disposition is BudgetExhausted && consumed_events < max_events && elapsed_us
                < max_time_us
            ||| disposition matches PollDisposition::Pending(wait_for) && wait_for@ == 0
                && !made_progress
        },
        made is Some ==> {
            &&& kept_operation == operation
            &&& kept_events == consumed_events
            &&& kept_time == elapsed_us
            &&& kept_progress == made_progress
            &&& kept_disposition == disposition
        },
{
}

/// An identity is current exactly while the slot holds it, and the next one is made
/// of the slot asked for and a generation that the last one did not have.
pub proof fn slot_answers_for_its_own_operation(
    model: TrackerModel,
    id: OperationId,
    lifecycle: OperationLifecycle,
    slot: u8,
)
    ensures
        model.lifecycle(id) matches Ok(found) ==> model.current == Some((id, found)),
        model.lifecycle(id) matches Err(error) ==> {
            &&& error is Stale
            &&& !(model.current matches Some((current, _)) && current == id)
        },
        model.at(id, lifecycle).lifecycle(id) == Ok::<OperationLifecycle, OperationStateError>(
            lifecycle,
        ),
        model.at(id, lifecycle).generation == model.generation,
        model.next_id(slot)@.0 == slot,
        model.next_id(slot)@.1 != 0,
        model.next_id(slot)@.1 != model.generation,
{
}

/// A backend call is what its own relation says of it: the state that follows is one
/// that the call, handed exactly these values, may lead to. Without a call nothing
/// changes, and only a poll writes the scan buffer.
pub proof fn backend_moves_only_by_its_calls<B: IncrementalWifiBackend>(
    before: B,
    given: Seq<ScanResult>,
    call: Option<IncrementalCall>,
    after: B,
)
    requires
        backend_steps(before, given, call, after),
    ensures
        call is None ==> after == before,
        call matches Some(IncrementalCall::Start { operation, request, result }) ==> B::starts(
            before,
            operation,
            request,
            after,
            result,
        ),
        call matches Some(IncrementalCall::Poll { operation, reason, budget, output, result })
            ==> B::polls(before, operation, reason, budget, given, after, output, result),
        call matches Some(IncrementalCall::Cancel { operation, result }) ==> B::cancels(
            before,
            operation,
            after,
            result,
        ),
        call matches Some(IncrementalCall::Poll { output, .. }) ==> buffer_after(given, call)
            == output,
        !(call matches Some(made) && made is Poll) ==> buffer_after(given, call) == given,
{
}

/// One operation from its queueing to its end: the identity handed out is current
/// until it is collected, its one terminal result tells whether it was cancelled
/// before, and the slot is free afterwards.
pub proof fn operation_runs_its_course()
    ensures
        forall|
            slot: &mut OperationTracker,
            number: u8,
            id: OperationId,
            later: &mut OperationTracker,
            started: Result<(), OperationStateError>,
        |
            #[trigger] call_ensures(OperationTracker::queue, (slot, number), Ok(id))
                && #[trigger] call_ensures(OperationTracker::mark_started, (later, id), started)
                && *later == *final(slot) ==> {
                &&& slot@.current is None
                &&& id@.0 == number
                &&& started is Ok
                &&& final(later)@.current == Some((id, OperationLifecycle::Started))
            },
        forall|
            slot: &mut OperationTracker,
            id: OperationId,
            outcome: CancelOutcome,
            later: &mut OperationTracker,
            cancelled: Result<bool, OperationStateError>,
        |
            #[trigger] call_ensures(OperationTracker::request_cancel, (slot, id), Ok(outcome))
                && #[trigger] call_ensures(
                OperationTracker::commit_terminal,
                (later, id),
                cancelled,
            ) && *later == *final(slot) ==> cancelled == Ok::<bool, OperationStateError>(true)
                && final(later)@.current == Some((id, OperationLifecycle::Terminal)),
        forall|
            slot: &mut OperationTracker,
            id: OperationId,
            cancelled: bool,
            later: &mut OperationTracker,
            again: Result<bool, OperationStateError>,
        |
            #[trigger] call_ensures(OperationTracker::commit_terminal, (slot, id), Ok(cancelled))
                && #[trigger] call_ensures(OperationTracker::commit_terminal, (later, id), again)
                && *later == *final(slot) ==> again == Err::<bool, OperationStateError>(
                OperationStateError::AlreadyTerminal,
            ),
        forall|
            slot: &mut OperationTracker,
            id: OperationId,
            cancelled: bool,
            later: &mut OperationTracker,
            reaped: Result<(), OperationStateError>,
        |
            #[trigger] call_ensures(OperationTracker::commit_terminal, (slot, id), Ok(cancelled))
                && #[trigger] call_ensures(OperationTracker::reap, (later, id), reaped) && *later
                == *final(slot) ==> reaped is Ok && final(later)@.current is None,
{
}

} // verus!
