//! Adapter from the incremental driver to the Wi-Fi control plane.

use core::task::Context;

use vstd::multiset::Multiset;
use vstd::prelude::*;

use crate::incremental::command::ArbiterModel;
use crate::incremental::driver::DriverModel;
use crate::incremental::wait::{PlatformPoll, CANCEL_BIT, COMMAND_BIT};
use crate::incremental::{
    CommandArbiterError, CommandSequence, IncrementalBackendDriver, IncrementalCall,
    IncrementalCompletion, IncrementalDriverError, IncrementalDriverEvent, IncrementalRequest,
    IncrementalRunnerDiagnostics, IncrementalWaitError, IncrementalWaitIntent,
    IncrementalWaitPlatform, IncrementalWifiBackend, PollState, SubmitError, WaitSet, WorkBudget,
};
use crate::radio::{OperationModel, RadioController, WifiParts};
use crate::state::{RadioModel, RadioState, Waiters};
use crate::transport::{Command, CommandKind, Completion, CompletionKind};
use crate::wifi::{
    BackendError, BackendErrorClass, ScanResult, WifiConfig, WifiEvent, WifiL2Capabilities,
};

verus! {

/// Code of a cancellation inside the runner, which has no chip status to keep.
pub const RUNNER_CANCELLED_CODE: u32 = 0;

/// Kind of a command, without its request.
#[derive(Clone, Copy, Debug, PartialEq, Eq, Structural)]
pub enum CommandKindTag {
    /// Initialize the backend.
    Initialize,
    /// Scan for networks.
    Scan,
    /// Associate with a network.
    Connect,
    /// Leave the network.
    Disconnect,
}

impl CommandKindTag {
    /// Kind of `command`.
    pub open spec fn of(command: CommandKind) -> Self {
        match command {
            CommandKind::Initialize => CommandKindTag::Initialize,
            CommandKind::Scan(_) => CommandKindTag::Scan,
            CommandKind::Connect(_) => CommandKindTag::Connect,
            CommandKind::Disconnect => CommandKindTag::Disconnect,
        }
    }

    /// Kind of `command`.
    pub fn from_command(command: &CommandKind) -> (tag: Self)
        ensures
            tag == Self::of(*command),
    {
        match command {
            CommandKind::Initialize => CommandKindTag::Initialize,
            CommandKind::Scan(_) => CommandKindTag::Scan,
            CommandKind::Connect(_) => CommandKindTag::Connect,
            CommandKind::Disconnect => CommandKindTag::Disconnect,
        }
    }
}

/// One accepted command, by sequence and kind.
pub type LedgerEntry = (CommandSequence, CommandKindTag);

/// The accepted commands that are not answered yet.
pub struct LedgerModel {
    /// First slot.
    pub first: Option<LedgerEntry>,
    /// Second slot.
    pub second: Option<LedgerEntry>,
}

/// The sequence in a slot, if it is taken.
pub open spec fn slot_sequence(slot: Option<LedgerEntry>) -> Multiset<CommandSequence> {
    match slot {
        Some((sequence, _)) => Multiset::singleton(sequence),
        None => Multiset::empty(),
    }
}

impl LedgerModel {
    /// Both slots are free.
    pub open spec fn empty() -> Self {
        LedgerModel { first: None, second: None }
    }

    /// The sequences in the ledger.
    pub open spec fn sequences(self) -> Multiset<CommandSequence> {
        slot_sequence(self.first).add(slot_sequence(self.second))
    }

    /// Both slots are taken.
    pub open spec fn is_full(self) -> bool {
        self.first is Some && self.second is Some
    }

    /// The ledger with one more entry, in the first free slot.
    pub open spec fn inserted(self, entry: LedgerEntry) -> Self {
        if self.first is None {
            LedgerModel { first: Some(entry), ..self }
        } else {
            LedgerModel { second: Some(entry), ..self }
        }
    }

    /// The kind recorded for `sequence`.
    pub open spec fn kind(self, sequence: CommandSequence) -> Option<CommandKindTag> {
        if self.first matches Some(entry) && entry.0 == sequence {
            Some(self.first->Some_0.1)
        } else if self.second matches Some(entry) && entry.0 == sequence {
            Some(self.second->Some_0.1)
        } else {
            None
        }
    }

    /// The ledger without the entry of `sequence`.
    pub open spec fn removed(self, sequence: CommandSequence) -> Self {
        if self.first matches Some(entry) && entry.0 == sequence {
            LedgerModel { first: None, ..self }
        } else if self.second matches Some(entry) && entry.0 == sequence {
            LedgerModel { second: None, ..self }
        } else {
            self
        }
    }
}

proof fn lemma_ledger(ledger: LedgerModel, entry: LedgerEntry)
    ensures
        !ledger.is_full() ==> ledger.inserted(entry).sequences() == ledger.sequences().insert(
            entry.0,
        ),
        ledger.sequences().count(entry.0) > 0 ==> {
            &&& ledger.kind(entry.0) is Some
            &&& ledger.removed(entry.0).sequences() == ledger.sequences().remove(entry.0)
        },
        ledger.sequences().len() <= 1 ==> !ledger.is_full(),
{
    broadcast use vstd::multiset::group_multiset_axioms;

    if !ledger.is_full() {
        assert(ledger.inserted(entry).sequences() =~= ledger.sequences().insert(entry.0));
    }
    if ledger.sequences().count(entry.0) > 0 {
        assert(ledger.removed(entry.0).sequences() =~= ledger.sequences().remove(entry.0));
    }
}

/// The kinds of the accepted commands that are not answered yet: at most the
/// active and the pending one.
#[derive(Clone, Copy, Debug)]
pub struct CommandLedger {
    first: Option<LedgerEntry>,
    second: Option<LedgerEntry>,
}

impl CommandLedger {
    /// The two slots.
    pub closed spec fn view(&self) -> LedgerModel {
        LedgerModel { first: self.first, second: self.second }
    }

    /// Construct an empty ledger.
    pub fn new() -> (ledger: Self)
        ensures
            ledger@ == LedgerModel::empty(),
    {
        CommandLedger { first: None, second: None }
    }

    /// Record a command unless both slots are taken.
    pub fn insert(&mut self, sequence: CommandSequence, kind: CommandKindTag) -> (inserted: bool)
        ensures
            inserted == !old(self)@.is_full(),
            final(self)@ == if inserted {
                old(self)@.inserted((sequence, kind))
            } else {
                old(self)@
            },
    {
        if self.first.is_none() {
            self.first = Some((sequence, kind));
            true
        } else if self.second.is_none() {
            self.second = Some((sequence, kind));
            true
        } else {
            false
        }
    }

    /// Take out the kind recorded for `sequence`.
    pub fn remove(&mut self, sequence: CommandSequence) -> (kind: Option<CommandKindTag>)
        ensures
            kind == old(self)@.kind(sequence),
            final(self)@ == old(self)@.removed(sequence),
    {
        if let Some((candidate, kind)) = self.first {
            if candidate == sequence {
                self.first = None;
                return Some(kind);
            }
        }
        if let Some((candidate, kind)) = self.second {
            if candidate == sequence {
                self.second = None;
                return Some(kind);
            }
        }
        None
    }
}

/// Internal failure while adapting the incremental driver to the control plane.
#[derive(Clone, Copy, Debug, PartialEq, Eq, Structural)]
pub enum IncrementalRadioRunnerError {
    /// The executable backend driver rejected an internal transition.
    Driver(IncrementalDriverError),
    /// A command carried the reserved zero sequence.
    InvalidCommandSequence,
    /// More than the supported active plus pending commands were observed.
    CommandCapacity,
    /// The bounded command arbiter rejected a facade transition.
    CommandArbiter(CommandArbiterError),
    /// A terminal event did not have matching command metadata.
    MissingCommand,
    /// The backend returned a completion for another request kind.
    CompletionMismatch,
}

impl From<IncrementalDriverError> for IncrementalRadioRunnerError {
    fn from(value: IncrementalDriverError) -> (error: Self) {
        IncrementalRadioRunnerError::Driver(value)
    }
}

impl vstd::std_specs::convert::FromSpecImpl<IncrementalDriverError> for IncrementalRadioRunnerError {
    open spec fn obeys_from_spec() -> bool {
        true
    }

    open spec fn from_spec(value: IncrementalDriverError) -> Self {
        IncrementalRadioRunnerError::Driver(value)
    }
}

/// The backend request for a command: the runner's configuration stands in
/// where the command carries none.
pub open spec fn request_for(kind: CommandKind, config: WifiConfig) -> IncrementalRequest {
    match kind {
        CommandKind::Initialize => IncrementalRequest::Initialize(config),
        CommandKind::Scan(request) => IncrementalRequest::Scan(request),
        CommandKind::Connect(request) => IncrementalRequest::Connect(request),
        CommandKind::Disconnect => IncrementalRequest::Disconnect(config),
    }
}

/// Completion and event of a success, if it fits the kind of its command.
pub open spec fn success_of(kind: CommandKindTag, completion: IncrementalCompletion) -> Option<
    (CompletionKind, WifiEvent),
> {
    match (kind, completion) {
        (CommandKindTag::Initialize, IncrementalCompletion::Initialized) => Some(
            (CompletionKind::Initialize(Ok(())), WifiEvent::Initialized),
        ),
        (CommandKindTag::Scan, IncrementalCompletion::Scan(outcome)) => Some(
            (
                CompletionKind::Scan(Ok(outcome)),
                WifiEvent::ScanCompleted { count: outcome.count, truncated: outcome.truncated },
            ),
        ),
        (CommandKindTag::Connect, IncrementalCompletion::Connected(info)) => Some(
            (CompletionKind::Connect(Ok(info)), WifiEvent::Connected(info)),
        ),
        (CommandKindTag::Disconnect, IncrementalCompletion::Disconnected) => Some(
            (CompletionKind::Disconnect(Ok(())), WifiEvent::Disconnected { reason: 0 }),
        ),
        _ => None,
    }
}

/// Completion of a failed command of this kind.
pub open spec fn failure_of(kind: CommandKindTag, error: BackendError) -> CompletionKind {
    match kind {
        CommandKindTag::Initialize => CompletionKind::Initialize(Err(error)),
        CommandKindTag::Scan => CompletionKind::Scan(Err(error)),
        CommandKindTag::Connect => CompletionKind::Connect(Err(error)),
        CommandKindTag::Disconnect => CompletionKind::Disconnect(Err(error)),
    }
}

/// The failure that a cancelled command reports.
pub open spec fn cancelled_error() -> BackendError {
    BackendError { class: BackendErrorClass::Cancelled, code: RUNNER_CANCELLED_CODE }
}

/// What a runner knows between two calls.
pub struct FacadeModel {
    /// The driver.
    pub driver: DriverModel,
    /// Accepted commands that are not answered yet.
    pub ledger: LedgerModel,
    /// Configuration for requests that carry none.
    pub config: WifiConfig,
    /// Observational counters.
    pub counters: IncrementalRunnerDiagnostics,
}

impl FacadeModel {
    /// The ledger lists exactly the commands that the driver owns.
    pub open spec fn wf(self) -> bool {
        &&& self.driver.wf()
        &&& self.ledger.sequences() == self.driver.owned()
    }

    /// The driver has answered `driven`, and the ledger still lists the command
    /// that this ends.
    pub open spec fn owes(
        self,
        driven: Result<IncrementalDriverEvent, IncrementalDriverError>,
    ) -> bool {
        &&& self.driver.wf()
        &&& match driven {
            Ok(event) => {
                &&& settled(self.ledger, event).sequences() == self.driver.owned()
                &&& event.ends() matches Some(sequence) ==> self.ledger.kind(sequence) is Some
            },
            Err(_) => self.ledger.sequences() == self.driver.owned(),
        }
    }

    /// A step was entered with these ready sources.
    pub open spec fn entered(self, ready: WaitSet) -> Self {
        let calls = crate::incremental::counters::counted(self.counters.run_once_calls);
        FacadeModel {
            counters: (IncrementalRunnerDiagnostics {
                run_once_calls: calls,
                ..self.counters
            }).with_ready(ready),
            ..self
        }
    }

    /// A facade failure was counted.
    pub open spec fn protocol_failed(self) -> Self {
        FacadeModel {
            counters: IncrementalRunnerDiagnostics {
                protocol_errors: crate::incremental::counters::counted(
                    self.counters.protocol_errors,
                ),
                ..self.counters
            },
            ..self
        }
    }

    /// `command` became the pending one.
    pub open spec fn accepting(self, command: Command) -> Self {
        let sequence = CommandSequence::of(command.sequence);
        FacadeModel {
            driver: DriverModel {
                commands: ArbiterModel {
                    pending: Some((sequence, request_for(command.kind, self.config))),
                    ..self.driver.commands
                },
                ..self.driver
            },
            ledger: self.ledger.inserted((sequence, CommandKindTag::of(command.kind))),
            ..self
        }
    }
}

/// The shared state after the command behind `sequence` failed with `error`.
pub open spec fn failed(
    before: RadioModel,
    capacity: nat,
    sequence: CommandSequence,
    kind: CommandKindTag,
    error: BackendError,
) -> RadioModel {
    before.published(capacity, WifiEvent::Failed(error)).completed(
        Completion { sequence: sequence@, kind: failure_of(kind, error) },
    )
}

/// The shared state after a command could not be served by the protocol.
pub open spec fn refused(before: RadioModel, sequence: u32) -> RadioModel {
    before.completed(Completion { sequence, kind: CompletionKind::Protocol })
}

/// The shared state after an initialized backend gave its link-layer
/// properties; the first ones stay.
pub open spec fn introduced(
    before: RadioModel,
    kind: CommandKindTag,
    capabilities: Option<WifiL2Capabilities>,
) -> RadioModel {
    if kind == CommandKindTag::Initialize && before.l2_capabilities is None {
        RadioModel { l2_capabilities: capabilities, ..before }
    } else {
        before
    }
}

/// The shared state after `event` was answered towards the controller.
pub open spec fn answered(
    ledger: LedgerModel,
    before: RadioModel,
    capacity: nat,
    event: IncrementalDriverEvent,
    capabilities: Option<WifiL2Capabilities>,
) -> RadioModel {
    match event {
        IncrementalDriverEvent::Completed { sequence, completion } => match ledger.kind(sequence) {
            None => refused(before, sequence@),
            Some(kind) => match success_of(kind, completion) {
                None => refused(before, sequence@),
                Some((done, announced)) => introduced(before, kind, capabilities).published(
                    capacity,
                    announced,
                ).completed(Completion { sequence: sequence@, kind: done }),
            },
        },
        IncrementalDriverEvent::Cancelled { sequence, .. } => match ledger.kind(sequence) {
            None => refused(before, sequence@),
            Some(kind) => failed(before, capacity, sequence, kind, cancelled_error()),
        },
        IncrementalDriverEvent::Failed { sequence, error, .. } => match ledger.kind(sequence) {
            None => refused(before, sequence@),
            Some(kind) => failed(before, capacity, sequence, kind, error),
        },
        _ => before,
    }
}

/// Why answering `event` failed, if it did.
pub open spec fn answer_failure(ledger: LedgerModel, event: IncrementalDriverEvent) -> Option<
    IncrementalRadioRunnerError,
> {
    match event.ends() {
        None => None,
        Some(sequence) => match ledger.kind(sequence) {
            None => Some(IncrementalRadioRunnerError::MissingCommand),
            Some(kind) => match event {
                IncrementalDriverEvent::Completed { completion, .. } => if success_of(
                    kind,
                    completion,
                ) is None {
                    Some(IncrementalRadioRunnerError::CompletionMismatch)
                } else {
                    None
                },
                _ => None,
            },
        },
    }
}

/// The ledger after `event`: the command it ends is taken out.
pub open spec fn settled(ledger: LedgerModel, event: IncrementalDriverEvent) -> LedgerModel {
    match event.ends() {
        Some(sequence) => ledger.removed(sequence),
        None => ledger,
    }
}

/// The end of a step in which the driver answered `driven`.
pub open spec fn concludes(
    pre: FacadeModel,
    before: RadioModel,
    capacity: nat,
    driven: Result<IncrementalDriverEvent, IncrementalDriverError>,
    capabilities: Option<WifiL2Capabilities>,
    post: FacadeModel,
    after: RadioModel,
    result: Result<IncrementalDriverEvent, IncrementalRadioRunnerError>,
) -> bool {
    &&& post.config == pre.config
    &&& match driven {
        Err(error) => {
            &&& result is Err
            &&& result->Err_0 == IncrementalRadioRunnerError::Driver(error)
            &&& after == before
            &&& post.ledger == pre.ledger
            &&& post.counters == (IncrementalRunnerDiagnostics {
                driver_errors: crate::incremental::counters::counted(pre.counters.driver_errors),
                ..pre.counters
            })
        },
        Ok(event) => {
            let counted = FacadeModel { counters: pre.counters.with_event(event), ..pre };
            &&& after == answered(pre.ledger, before, capacity, event, capabilities)
            &&& post.ledger == settled(pre.ledger, event)
            &&& match answer_failure(pre.ledger, event) {
                None => {
                    &&& result is Ok
                    &&& result->Ok_0 == event
                    &&& post.counters == counted.counters
                },
                Some(error) => {
                    &&& result is Err
                    &&& result->Err_0 == error
                    &&& post.counters == counted.protocol_failed().counters
                },
            }
        },
    }
}

/// The part of a step in which the driver moves.
pub open spec fn drives_on(
    pre: FacadeModel,
    before: RadioModel,
    capacity: nat,
    ready: WaitSet,
    deadline: Option<u64>,
    capabilities: Option<WifiL2Capabilities>,
    call: Option<IncrementalCall>,
    post: FacadeModel,
    after: RadioModel,
    result: Result<IncrementalDriverEvent, IncrementalRadioRunnerError>,
) -> bool {
    exists|driven: Result<IncrementalDriverEvent, IncrementalDriverError>|
        {
            &&& #[trigger] crate::incremental::driver::drives(
                pre.driver,
                WaitSet::of(ready@ & !CANCEL_BIT),
                deadline,
                call,
                post.driver,
                driven,
            )
            &&& concludes(
                pre,
                RadioModel {
                    scan_results: crate::incremental::buffer_after(before.scan_results, call),
                    ..before
                },
                capacity,
                driven,
                capabilities,
                post,
                after,
                result,
            )
        }
}

/// The part of a step behind the acceptance of a command: one queued
/// cancellation is served, and the driver moves unless that did something.
pub open spec fn serves_cancellation(
    pre: FacadeModel,
    before: RadioModel,
    capacity: nat,
    ready: WaitSet,
    deadline: Option<u64>,
    capabilities: Option<WifiL2Capabilities>,
    call: Option<IncrementalCall>,
    post: FacadeModel,
    after: RadioModel,
    result: Result<IncrementalDriverEvent, IncrementalRadioRunnerError>,
) -> bool {
    if before.cancellations.len() == 0 {
        drives_on(
            pre,
            before,
            capacity,
            ready,
            deadline,
            capabilities,
            call,
            post,
            after,
            result,
        )
    } else {
        let raw = before.cancellations[0];
        let taken = RadioModel { cancellations: before.cancellations.drop_first(), ..before };
        let sequence = CommandSequence::of(raw);
        if raw == 0 {
            &&& call is None
            &&& post == pre.protocol_failed()
            &&& after == taken
            &&& result is Err
            &&& result->Err_0 == IncrementalRadioRunnerError::InvalidCommandSequence
        } else if pre.driver.cancels_on_request(sequence) {
            &&& result is Ok
            &&& crate::incremental::driver::answers_cancellation(
                pre.driver,
                sequence,
                call,
                post.driver,
                Some(result->Ok_0),
            )
            &&& concludes(
                pre,
                taken,
                capacity,
                Ok(result->Ok_0),
                capabilities,
                post,
                after,
                result,
            )
        } else {
            drives_on(
                pre,
                taken,
                capacity,
                ready,
                deadline,
                capabilities,
                call,
                post,
                after,
                result,
            )
        }
    }
}

/// What one step of the runner does: accept at most one command, serve at most
/// one cancellation, and make at most one backend call.
pub open spec fn runs_once(
    pre: FacadeModel,
    before: RadioModel,
    capacity: nat,
    ready: WaitSet,
    deadline: Option<u64>,
    capabilities: Option<WifiL2Capabilities>,
    call: Option<IncrementalCall>,
    post: FacadeModel,
    after: RadioModel,
    result: Result<IncrementalDriverEvent, IncrementalRadioRunnerError>,
) -> bool {
    let entered = pre.entered(ready);
    if pre.driver.commands.pending is Some || before.commands.len() == 0 {
        serves_cancellation(
            entered,
            before,
            capacity,
            ready,
            deadline,
            capabilities,
            call,
            post,
            after,
            result,
        )
    } else {
        let command = before.commands[0];
        let received = RadioModel { commands: before.commands.drop_first(), ..before };
        if command.sequence == 0 {
            &&& call is None
            &&& post == entered.protocol_failed()
            &&& after == refused(received, 0)
            &&& result is Err
            &&& result->Err_0 == IncrementalRadioRunnerError::InvalidCommandSequence
        } else {
            serves_cancellation(
                entered.accepting(command),
                received,
                capacity,
                ready,
                deadline,
                capabilities,
                call,
                post,
                after,
                result,
            )
        }
    }
}

/// The part of a step that touches the shared state before the backend is called:
/// accept at most one command and take at most one queued cancellation.
pub open spec fn takes_in(
    pre: FacadeModel,
    before: RadioModel,
    ready: WaitSet,
    post: FacadeModel,
    after: RadioModel,
    result: Result<Option<CommandSequence>, IncrementalRadioRunnerError>,
) -> bool {
    let entered = pre.entered(ready);
    let accepts = pre.driver.commands.pending is None && before.commands.len() > 0;
    let received = if accepts {
        RadioModel { commands: before.commands.drop_first(), ..before }
    } else {
        before
    };
    if accepts && before.commands[0].sequence == 0 {
        &&& post == entered.protocol_failed()
        &&& after == refused(received, 0)
        &&& result is Err
        &&& result->Err_0 == IncrementalRadioRunnerError::InvalidCommandSequence
    } else {
        let accepted = if accepts {
            entered.accepting(before.commands[0])
        } else {
            entered
        };
        if received.cancellations.len() == 0 {
            &&& post == accepted
            &&& after == received
            &&& result is Ok
            &&& result->Ok_0 is None
        } else {
            let raw = received.cancellations[0];
            &&& after == (RadioModel {
                cancellations: received.cancellations.drop_first(),
                ..received
            })
            &&& if raw == 0 {
                &&& post == accepted.protocol_failed()
                &&& result is Err
                &&& result->Err_0 == IncrementalRadioRunnerError::InvalidCommandSequence
            } else {
                &&& post == accepted
                &&& result is Ok
                &&& result->Ok_0 == Some(CommandSequence::of(raw))
            }
        }
    }
}

/// The part of a step in which the backend is called at most once: a cancellation
/// that finds something to do is served, and otherwise the driver moves.
pub open spec fn moves(
    pre: DriverModel,
    cancellation: Option<CommandSequence>,
    ready: WaitSet,
    deadline: Option<u64>,
    call: Option<IncrementalCall>,
    post: DriverModel,
    driven: Result<IncrementalDriverEvent, IncrementalDriverError>,
) -> bool {
    if serves_request(pre, cancellation) {
        &&& driven is Ok
        &&& crate::incremental::driver::answers_cancellation(
            pre,
            cancellation->Some_0,
            call,
            post,
            Some(driven->Ok_0),
        )
    } else {
        crate::incremental::driver::drives(
            pre,
            WaitSet::of(ready@ & !CANCEL_BIT),
            deadline,
            call,
            post,
            driven,
        )
    }
}

/// There is a cancellation, and it finds something to do.
pub open spec fn serves_request(
    driver: DriverModel,
    cancellation: Option<CommandSequence>,
) -> bool {
    cancellation matches Some(sequence) && driver.cancels_on_request(sequence)
}

/// What the runner waits for: the driver's intent, commands while another one
/// can be retained, and cancellations.
pub open spec fn facade_intent(
    driver: DriverModel,
    deadline: Option<u64>,
    state: RadioModel,
) -> IncrementalWaitIntent {
    let intent = driver.intent(deadline);
    let with_command = if driver.commands.pending is None {
        intent.extended(COMMAND_BIT, state.commands.len() > 0)
    } else {
        intent
    };
    with_command.extended(CANCEL_BIT, state.cancellations.len() > 0)
}

/// The platform's share of the announced sources.
pub open spec fn platform_sources(intent: IncrementalWaitIntent) -> WaitSet {
    WaitSet::of((intent.sources@ & !COMMAND_BIT) & !CANCEL_BIT)
}

/// Bits of the channel sources that are announced and ready.
pub open spec fn channel_ready(intent: IncrementalWaitIntent, state: RadioModel) -> u8 {
    if intent.sources.has(COMMAND_BIT) && state.commands.len() > 0 {
        COMMAND_BIT
    } else {
        0
    }
}

/// A ready set ends a wait unless it is empty.
pub open spec fn ready_unless_empty<E>(bits: u8) -> PollState<
    Result<WaitSet, IncrementalWaitError<E>>,
> {
    if bits == 0 {
        PollState::Pending
    } else {
        PollState::Ready(Ok(WaitSet::of(bits)))
    }
}

/// What one poll of a wait returns for the platform's answer, beside the
/// channel sources that are ready.
pub open spec fn wait_answer<E>(
    channels: u8,
    sources: WaitSet,
    answer: PollState<Result<WaitSet, E>>,
) -> PollState<Result<WaitSet, IncrementalWaitError<E>>> {
    match answer {
        PollState::Pending => ready_unless_empty(channels),
        PollState::Ready(Err(error)) => PollState::Ready(
            Err(IncrementalWaitError::Platform(error)),
        ),
        PollState::Ready(Ok(ready)) => if ready@ & !sources@ != 0 {
            PollState::Ready(
                Err(IncrementalWaitError::UnexpectedSources { subscribed: sources, ready }),
            )
        } else {
            ready_unless_empty(channels | ready@)
        },
    }
}

/// What one poll of a wait returns, and which platform poll it makes.
///
/// Immediate work needs no wake: a queued cancellation is named, anything else
/// is the empty set. Otherwise the platform is asked once for its share of the
/// sources.
pub open spec fn wait_polls<E>(
    intent: IncrementalWaitIntent,
    state: RadioModel,
    poll: Option<PlatformPoll<E>>,
    result: PollState<Result<WaitSet, IncrementalWaitError<E>>>,
) -> bool {
    if intent.run_immediately {
        &&& poll is None
        &&& result == PollState::Ready(
            Ok::<WaitSet, IncrementalWaitError<E>>(
                if state.cancellations.len() > 0 {
                    WaitSet::of(CANCEL_BIT)
                } else {
                    WaitSet::of(0)
                },
            ),
        )
    } else if platform_sources(intent)@ == 0 {
        &&& poll is None
        &&& result == ready_unless_empty::<E>(channel_ready(intent, state))
    } else {
        &&& poll matches Some(made)
        &&& made.sources == platform_sources(intent)
        &&& made.deadline_us == intent.deadline_us
        &&& result == wait_answer(
            channel_ready(intent, state),
            platform_sources(intent),
            made.result,
        )
    }
}

/// `intent` is what the runner waits for, with the deadline that the backend
/// answered where the intent depends on it.
pub open spec fn facade_intent_answered<B: IncrementalWifiBackend>(
    backend: B,
    driver: DriverModel,
    state: RadioModel,
    intent: IncrementalWaitIntent,
) -> bool {
    exists|deadline: Option<u64>|
        {
            &&& intent == #[trigger] facade_intent(driver, deadline, state)
            &&& driver.asks_deadline() ==> crate::incremental::driver::deadline_answered(
                backend,
                driver,
                deadline,
            )
        }
}

/// One poll of a wait together with the backend and the platform: at most one
/// platform poll is made, and the answer follows from what it returned.
pub open spec fn wait_steps<B: IncrementalWifiBackend, P: IncrementalWaitPlatform>(
    backend: B,
    driver: DriverModel,
    state: RadioModel,
    before: P,
    after: P,
    result: PollState<Result<WaitSet, IncrementalWaitError<P::Error>>>,
) -> bool {
    exists|intent: IncrementalWaitIntent, poll: Option<PlatformPoll<P::Error>>|
        {
            &&& #[trigger] wait_polls(intent, state, poll, result)
            &&& facade_intent_answered(backend, driver, state, intent)
            &&& crate::incremental::wait::platform_steps(before, poll, after)
        }
}

/// `capabilities` is what the backend answered when asked for its link-layer
/// properties.
pub open spec fn capabilities_answered<B: IncrementalWifiBackend>(
    backend: B,
    capabilities: Option<WifiL2Capabilities>,
) -> bool {
    call_ensures(B::l2_capabilities, (&backend,), capabilities)
}

/// What one poll of a wait does to the registered tasks: a wait that is pending
/// is woken by the next cancellation, and by the next command while one can be
/// accepted. Nobody else is registered and nobody is forgotten.
pub open spec fn waits_for_sources(
    driver: DriverModel,
    waiting: Waiters,
    left: Waiters,
    pending: bool,
) -> bool {
    &&& left == (Waiters { command: left.command, cancellation: left.cancellation, ..waiting })
    &&& waiting.command ==> left.command
    &&& waiting.cancellation ==> left.cancellation
    &&& pending ==> left.cancellation
    &&& pending && driver.commands.pending is None ==> left.command
}

/// The values that a step took from the backend are ones that it gave: the one
/// call that was made, the deadline where the step depended on it, and the
/// link-layer properties where an initialization completed.
pub open spec fn answers_fit<B: IncrementalWifiBackend>(
    before: B,
    driver: DriverModel,
    given: Seq<ScanResult>,
    deadline: Option<u64>,
    capabilities: Option<WifiL2Capabilities>,
    call: Option<IncrementalCall>,
    after: B,
    result: Result<IncrementalDriverEvent, IncrementalRadioRunnerError>,
) -> bool {
    &&& crate::incremental::backend_steps(before, given, call, after)
    &&& depends_on_deadline(call, result) ==> crate::incremental::driver::deadline_answered(
        before,
        driver,
        deadline,
    )
    &&& initialization_completed(result) ==> capabilities_answered(
        after,
        capabilities,
    )
}

/// The step looked at the deadline of the active operation.
pub open spec fn depends_on_deadline(
    call: Option<IncrementalCall>,
    result: Result<IncrementalDriverEvent, IncrementalRadioRunnerError>,
) -> bool {
    ||| call matches Some(made) && made is Poll
    ||| result matches Ok(event) && event is Waiting
    ||| result matches Err(error) && error is Driver
}

/// The step completed an initialization.
pub open spec fn initialization_completed(
    result: Result<IncrementalDriverEvent, IncrementalRadioRunnerError>,
) -> bool {
    result matches Ok(IncrementalDriverEvent::Completed { completion, .. })
        && completion is Initialized
}

/// One step of a runner together with its backend: at most one backend call is
/// made, and the step follows from what it returned.
pub open spec fn runner_steps<B: IncrementalWifiBackend>(
    backend: B,
    pre: FacadeModel,
    before: RadioModel,
    capacity: nat,
    ready: WaitSet,
    backend_after: B,
    post: FacadeModel,
    after: RadioModel,
    result: Result<IncrementalDriverEvent, IncrementalRadioRunnerError>,
) -> bool {
    exists|
        call: Option<IncrementalCall>,
        deadline: Option<u64>,
        capabilities: Option<WifiL2Capabilities>,
    |
        {
            &&& #[trigger] runs_once(
                pre,
                before,
                capacity,
                ready,
                deadline,
                capabilities,
                call,
                post,
                after,
                result,
            )
            &&& answers_fit(
                backend,
                pre.driver,
                before.scan_results,
                deadline,
                capabilities,
                call,
                backend_after,
                result,
            )
        }
}

/// The counters after one poll of a wait.
pub open spec fn wait_counted<E>(
    counters: IncrementalRunnerDiagnostics,
    first: bool,
    result: PollState<Result<WaitSet, IncrementalWaitError<E>>>,
) -> IncrementalRunnerDiagnostics {
    let polled = IncrementalRunnerDiagnostics {
        wait_ready_calls: crate::incremental::counters::counted_if(
            first,
            counters.wait_ready_calls,
        ),
        ..counters
    };
    match result {
        PollState::Pending => polled,
        PollState::Ready(Err(_)) => IncrementalRunnerDiagnostics {
            wait_ready_errors: crate::incremental::counters::counted(polled.wait_ready_errors),
            ..polled
        },
        PollState::Ready(Ok(ready)) => (IncrementalRunnerDiagnostics {
            wait_ready_completions: crate::incremental::counters::counted(
                polled.wait_ready_completions,
            ),
            immediate_ready_completions: crate::incremental::counters::counted_if(
                ready@ == 0,
                polled.immediate_ready_completions,
            ),
            ..polled
        }).with_ready(ready),
    }
}

/// Wi-Fi control/data parts plus the incremental runner.
pub struct IncrementalRadioParts<B, D, const EVENTS: usize> {
    /// Wi-Fi controller and L2 device.
    pub wifi: WifiParts<D, EVENTS>,
    /// Long-lived bounded backend runner.
    pub runner: IncrementalRadioRunner<B, EVENTS>,
}

impl<B: IncrementalWifiBackend, D, const EVENTS: usize> RadioController<B, D, EVENTS> {
    /// Split ownership into the Wi-Fi handles and the incremental runner.
    ///
    /// Callers must feed the returned runner a platform-derived ready wait-set
    /// and yield between bounded calls.
    pub fn split_incremental(self, budget: WorkBudget) -> (parts: IncrementalRadioParts<
        B,
        D,
        EVENTS,
    >)
        ensures
            parts.wifi.controller@ == 0,
            parts.wifi.device@ == self.parts().device,
            parts.runner.wf(),
            parts.runner.backend_state() == self.parts().backend,
            parts.runner@ == (FacadeModel {
                driver: DriverModel::idle(budget),
                ledger: LedgerModel::empty(),
                config: self.configuration().wifi,
                counters: IncrementalRunnerDiagnostics::zero(),
            }),
    {
        let (wifi, backend, config) = self.split_components();
        let runner = IncrementalRadioRunner {
            driver: IncrementalBackendDriver::new(backend, budget),
            config,
            ledger: CommandLedger::new(),
            diagnostics: IncrementalRunnerDiagnostics::empty(),
        };
        proof {
            broadcast use vstd::multiset::group_multiset_axioms;

            assert(runner@.ledger.sequences() =~= runner@.driver.owned());
        }
        IncrementalRadioParts { wifi, runner }
    }
}

/// One unified wait, from its first poll to its answer.
pub struct ReadyWait {
    started: bool,
}

impl ReadyWait {
    /// The wait has been polled.
    pub closed spec fn view(&self) -> bool {
        self.started
    }

    /// Construct a wait that has not been polled.
    pub fn new() -> (wait: Self)
        ensures
            !wait@,
    {
        ReadyWait { started: false }
    }
}

/// Adapter between one bounded incremental backend and the control plane.
pub struct IncrementalRadioRunner<B, const EVENTS: usize> {
    driver: IncrementalBackendDriver<B>,
    config: WifiConfig,
    ledger: CommandLedger,
    diagnostics: IncrementalRunnerDiagnostics,
}

impl<B: IncrementalWifiBackend, const EVENTS: usize> IncrementalRadioRunner<B, EVENTS> {
    /// What the runner knows.
    pub closed spec fn view(&self) -> FacadeModel {
        FacadeModel {
            driver: self.driver@,
            ledger: self.ledger@,
            config: self.config,
            counters: self.diagnostics,
        }
    }

    /// The backend as it stands.
    pub closed spec fn backend_state(&self) -> B {
        self.driver.backend_state()
    }

    /// The runner's parts agree with each other.
    pub open spec fn wf(&self) -> bool {
        self@.wf()
    }

    /// Accept at most one command and execute at most one bounded driver action.
    pub fn run_once(&mut self, state: &mut RadioState<EVENTS>, ready: WaitSet) -> (result: Result<
        IncrementalDriverEvent,
        IncrementalRadioRunnerError,
    >)
        requires
            old(self).wf(),
            old(state).wf(),
        ensures
            final(self).wf(),
            final(state).wf(),
            runner_steps(
                old(self).backend_state(),
                old(self)@,
                old(state)@,
                EVENTS as nat,
                ready,
                final(self).backend_state(),
                final(self)@,
                final(state)@,
                result,
            ),
            crate::state::wakes(
                old(state)@,
                old(state).waiters(),
                final(state)@,
                final(state).waiters(),
            ),
    {
        let cancellation = match self.intake(state, ready) {
            Ok(cancellation) => cancellation,
            Err(error) => {
                let result = Err(error);
                assert(runs_once(
                    old(self)@,
                    old(state)@,
                    EVENTS as nat,
                    ready,
                    None,
                    None,
                    None,
                    self@,
                    state@,
                    result,
                ));
                return result;
            },
        };
        let ghost entered = *self;
        let ghost taken = state@;
        let driven = self.drive(cancellation, ready, &mut state.scan_results);
        let ghost moved = *self;
        let ghost scanned = state@;
        let ghost (call, deadline) = choose|
            call: Option<IncrementalCall>,
            deadline: Option<u64>,
        |
            {
                &&& #[trigger] moves(
                    entered@.driver,
                    cancellation,
                    ready,
                    deadline,
                    call,
                    moved@.driver,
                    driven,
                )
                    &&& crate::incremental::backend_steps(
                        entered.backend_state(),
                        taken.scan_results,
                        call,
                        moved.backend_state(),
                    )
                    &&& entered@.driver.commands.action() is WaitActive && !serves_request(
                        entered@.driver,
                        cancellation,
                    ) ==> crate::incremental::driver::deadline_answered(
                        entered.backend_state(),
                        entered@.driver,
                        deadline,
                    )
                    &&& scanned.scan_results == crate::incremental::buffer_after(taken.scan_results, call)
            };
        let result = self.settle(state, driven);
        proof {
            let capabilities = choose|capabilities: Option<WifiL2Capabilities>|
                {
                    &&& #[trigger] concludes(
                        moved@,
                        scanned,
                        EVENTS as nat,
                        driven,
                        capabilities,
                        self@,
                        state@,
                        result,
                    )
                    &&& initialization_completed(result) ==> capabilities_answered(
                        self.backend_state(),
                        capabilities,
                    )
                };
            assert(concludes(
                entered@,
                scanned,
                EVENTS as nat,
                driven,
                capabilities,
                self@,
                state@,
                result,
            ));
            assert(serves_cancellation(
                entered@,
                RadioModel {
                    cancellations: old(state)@.cancellations,
                    ..taken
                },
                EVENTS as nat,
                ready,
                deadline,
                capabilities,
                call,
                self@,
                state@,
                result,
            ));
            assert(runs_once(
                old(self)@,
                old(state)@,
                EVENTS as nat,
                ready,
                deadline,
                capabilities,
                call,
                self@,
                state@,
                result,
            ));
        }
        result
    }

    /// The first part of a step: count it, accept at most one command, and take at
    /// most one queued cancellation. The backend is not called.
    pub fn intake(&mut self, state: &mut RadioState<EVENTS>, ready: WaitSet) -> (result: Result<
        Option<CommandSequence>,
        IncrementalRadioRunnerError,
    >)
        requires
            old(self).wf(),
            old(state).wf(),
        ensures
            final(self).wf(),
            final(state).wf(),
            final(self).backend_state() == old(self).backend_state(),
            takes_in(old(self)@, old(state)@, ready, final(self)@, final(state)@, result),
            crate::state::wakes(
                old(state)@,
                old(state).waiters(),
                final(state)@,
                final(state).waiters(),
            ),
    {
        IncrementalRunnerDiagnostics::increment(&mut self.diagnostics.run_once_calls);
        self.diagnostics.record_ready(ready);

        if self.driver.can_submit() {
            if let Some(command) = state.take_command() {
                if let Err(error) = self.submit_command(state, command) {
                    IncrementalRunnerDiagnostics::increment(&mut self.diagnostics.protocol_errors);
                    return Err(error);
                }
            }
        }
        match state.cancellations.try_receive() {
            None => Ok(None),
            Some(raw_sequence) => match CommandSequence::try_from_raw(raw_sequence) {
                Some(sequence) => Ok(Some(sequence)),
                None => {
                    IncrementalRunnerDiagnostics::increment(&mut self.diagnostics.protocol_errors);
                    Err(IncrementalRadioRunnerError::InvalidCommandSequence)
                },
            },
        }
    }

    /// The middle part of a step: serve the cancellation that [`Self::intake`] took,
    /// or move the driver once. The shared state is not touched; the answer is to be
    /// settled by [`Self::settle`].
    pub fn drive(
        &mut self,
        cancellation: Option<CommandSequence>,
        ready: WaitSet,
        scan_output: &mut [ScanResult],
    ) -> (driven: Result<IncrementalDriverEvent, IncrementalDriverError>)
        requires
            old(self).wf(),
        ensures
            final(self)@ == (FacadeModel { driver: final(self)@.driver, ..old(self)@ }),
            final(self)@.owes(driven),
            final(scan_output)@.len() == old(scan_output)@.len(),
            exists|call: Option<IncrementalCall>, deadline: Option<u64>|
                {
                    &&& #[trigger] moves(
                        old(self)@.driver,
                        cancellation,
                        ready,
                        deadline,
                        call,
                        final(self)@.driver,
                        driven,
                    )
                    &&& crate::incremental::backend_steps(
                        old(self).backend_state(),
                        old(scan_output)@,
                        call,
                        final(self).backend_state(),
                    )
                    &&& old(self)@.driver.commands.action() is WaitActive && !serves_request(
                        old(self)@.driver,
                        cancellation,
                    ) ==> crate::incremental::driver::deadline_answered(
                        old(self).backend_state(),
                        old(self)@.driver,
                        deadline,
                    )
                    &&& final(scan_output)@ == crate::incremental::buffer_after(old(scan_output)@, call)
                },
    {
        let ghost pre = self@;
        if let Some(sequence) = cancellation {
            let answer = match self.driver.request_cancel(sequence) {
                Ok(answer) => answer,
                Err(error) => return Err(error),
            };
            let ghost call = choose|call: Option<IncrementalCall>|
                {
                    &&& #[trigger] crate::incremental::driver::answers_cancellation(
                        pre.driver,
                        sequence,
                        call,
                        self@.driver,
                        answer,
                    )
                    &&& crate::incremental::backend_steps(
                        old(self).backend_state(),
                        Seq::empty(),
                        call,
                        self.backend_state(),
                    )
                };
            proof {
                crate::incremental::driver::cancelling_conserves_commands(
                    pre.driver,
                    sequence,
                    call,
                    self@.driver,
                    answer,
                );
            }
            if let Some(event) = answer {
                let driven = Ok(event);
                proof {
                    lemma_settled(pre.ledger, pre.driver, self@.driver, event);
                    assert(moves(
                        pre.driver,
                        cancellation,
                        ready,
                        None,
                        call,
                        self@.driver,
                        driven,
                    ));
                }
                return driven;
            }
        }
        let ghost cleared = WaitSet::of(ready@ & !CANCEL_BIT);
        let driven = self.driver.drive_once(ready.without(WaitSet::cancel()), scan_output);
        proof {
            let (call, deadline) = choose|call: Option<IncrementalCall>, deadline: Option<u64>|
                {
                    &&& #[trigger] crate::incremental::driver::drives(
                        pre.driver,
                        cleared,
                        deadline,
                        call,
                        self@.driver,
                        driven,
                    )
                    &&& crate::incremental::backend_steps(
                        old(self).backend_state(),
                        old(scan_output)@,
                        call,
                        self.backend_state(),
                    )
                    &&& pre.driver.commands.action() is WaitActive
                        ==> crate::incremental::driver::deadline_answered(
                        old(self).backend_state(),
                        pre.driver,
                        deadline,
                    )
                    &&& scan_output@ == crate::incremental::buffer_after(old(scan_output)@, call)
                };
            crate::incremental::driver::driving_conserves_commands(
                pre.driver,
                cleared,
                deadline,
                call,
                self@.driver,
                driven,
            );
            if let Ok(event) = driven {
                lemma_settled(pre.ledger, pre.driver, self@.driver, event);
            }
            assert(moves(
                pre.driver,
                cancellation,
                ready,
                deadline,
                call,
                self@.driver,
                driven,
            ));
        }
        driven
    }

    /// The last part of a step: count what the driver answered and answer it
    /// towards the controller.
    pub fn settle(
        &mut self,
        state: &mut RadioState<EVENTS>,
        driven: Result<IncrementalDriverEvent, IncrementalDriverError>,
    ) -> (result: Result<IncrementalDriverEvent, IncrementalRadioRunnerError>)
        requires
            old(self)@.owes(driven),
            old(state).wf(),
        ensures
            final(self).wf(),
            final(state).wf(),
            final(self)@.driver == old(self)@.driver,
            final(self).backend_state() == old(self).backend_state(),
            exists|capabilities: Option<WifiL2Capabilities>|
                {
                    &&& #[trigger] concludes(
                        old(self)@,
                        old(state)@,
                        EVENTS as nat,
                        driven,
                        capabilities,
                        final(self)@,
                        final(state)@,
                        result,
                    )
                    &&& initialization_completed(result) ==> capabilities_answered(
                        final(self).backend_state(),
                        capabilities,
                    )
                },
            crate::state::wakes(
                old(state)@,
                old(state).waiters(),
                final(state)@,
                final(state).waiters(),
            ),
    {
        match driven {
            Ok(event) => self.conclude(state, event),
            Err(error) => {
                IncrementalRunnerDiagnostics::increment(&mut self.diagnostics.driver_errors);
                let result = Err(IncrementalRadioRunnerError::from(error));
                assert(concludes(
                    old(self)@,
                    old(state)@,
                    EVENTS as nat,
                    driven,
                    None,
                    self@,
                    state@,
                    result,
                ));
                result
            },
        }
    }

    /// Count `event` and answer it towards the controller.
    fn conclude(&mut self, state: &mut RadioState<EVENTS>, event: IncrementalDriverEvent) -> (result:
        Result<IncrementalDriverEvent, IncrementalRadioRunnerError>)
        requires
            old(state).wf(),
        ensures
            final(state).wf(),
            final(self)@.driver == old(self)@.driver,
            final(self).backend_state() == old(self).backend_state(),
            exists|capabilities: Option<WifiL2Capabilities>|
                {
                    &&& #[trigger] concludes(
                        old(self)@,
                        old(state)@,
                        EVENTS as nat,
                        Ok(event),
                        capabilities,
                        final(self)@,
                        final(state)@,
                        result,
                    )
                    &&& initialization_completed(result)
                        ==> capabilities_answered(final(self).backend_state(), capabilities)
                },
            crate::state::wakes(
                old(state)@,
                old(state).waiters(),
                final(state)@,
                final(state).waiters(),
            ),
    {
        self.diagnostics.record_event(event);
        let published = self.publish_terminal(state, event);
        let ghost capabilities = choose|capabilities: Option<WifiL2Capabilities>|
            {
                &&& state@ == #[trigger] answered(
                    old(self)@.ledger,
                    old(state)@,
                    EVENTS as nat,
                    event,
                    capabilities,
                )
                &&& published is Ok && initialization_completed(Ok(event))
                    ==> capabilities_answered(self.backend_state(), capabilities)
            };
        let result = match published {
            Err(error) => {
                IncrementalRunnerDiagnostics::increment(&mut self.diagnostics.protocol_errors);
                Err(error)
            },
            Ok(()) => Ok(event),
        };
        assert(concludes(
            old(self)@,
            old(state)@,
            EVENTS as nat,
            Ok(event),
            capabilities,
            self@,
            state@,
            result,
        ));
        result
    }

    /// Monotonic deadline currently requested by the backend.
    pub fn next_deadline_us(&self) -> (deadline_us: Option<u64>)
        ensures
            crate::incremental::driver::deadline_answered(
                self.backend_state(),
                self@.driver,
                deadline_us,
            ),
    {
        self.driver.next_deadline_us()
    }

    /// Snapshot immediate work, wake subscriptions, and the next deadline.
    ///
    /// The command source is included only while the bounded driver can retain
    /// another request. A queued command makes the intent immediately runnable.
    pub fn wait_intent(&self, state: &RadioState<EVENTS>) -> (intent: IncrementalWaitIntent)
        ensures
            facade_intent_answered(self.backend_state(), self@.driver, state@, intent),
    {
        let intent = self.driver.wait_intent();
        let ghost deadline = choose|deadline: Option<u64>|
            {
                &&& intent == #[trigger] self@.driver.intent(deadline)
                &&& self@.driver.asks_deadline() ==> crate::incremental::driver::deadline_answered(
                    self.backend_state(),
                    self@.driver,
                    deadline,
                )
            };
        let intent = if self.driver.can_submit() {
            intent.with_command(!state.commands.is_empty())
        } else {
            intent
        };
        let intent = intent.with_cancellation(!state.cancellations.is_empty());
        assert(intent == facade_intent(self@.driver, deadline, state@));
        intent
    }

    /// Whether the controller command channel is non-empty. The task of `cx` is
    /// registered to be woken by the next command. No command is consumed.
    ///
    /// A platform adapter should poll this only when [`Self::wait_intent`]
    /// contains the command source.
    pub fn wait_for_command(&self, state: &mut RadioState<EVENTS>, cx: &mut Context<'_>) -> (turn:
        PollState<()>)
        ensures
            turn == if old(state)@.commands.len() > 0 {
                PollState::Ready(())
            } else {
                PollState::Pending
            },
            final(state).wf() == old(state).wf(),
            final(state)@ == old(state)@,
            final(state).waiters() == (Waiters { command: true, ..old(state).waiters() }),
    {
        if state.commands.poll_ready_to_receive(cx) {
            PollState::Ready(())
        } else {
            PollState::Pending
        }
    }

    /// Wait for one subscribed source without consuming a controller command.
    ///
    /// Immediate internal work returns an empty set; pass the returned set to
    /// [`Self::run_once`] either way. Command readiness is registered through
    /// the bounded channel, while `platform` owns backend, L2, and monotonic
    /// timer registration.
    pub fn wait_ready<P: IncrementalWaitPlatform>(
        &mut self,
        wait: &mut ReadyWait,
        state: &mut RadioState<EVENTS>,
        platform: &mut P,
        cx: &mut Context<'_>,
    ) -> (result: PollState<Result<WaitSet, IncrementalWaitError<P::Error>>>)
        requires
            old(self).wf(),
        ensures
            final(self).wf(),
            final(wait)@,
            final(self).backend_state() == old(self).backend_state(),
            wait_steps(
                old(self).backend_state(),
                old(self)@.driver,
                old(state)@,
                *old(platform),
                *final(platform),
                result,
            ),
            final(state).wf() == old(state).wf(),
            final(state)@ == old(state)@,
            waits_for_sources(
                old(self)@.driver,
                old(state).waiters(),
                final(state).waiters(),
                result is Pending,
            ),
            final(self)@ == (FacadeModel {
                counters: wait_counted(old(self)@.counters, !old(wait)@, result),
                ..old(self)@
            }),
    {
        if !wait.started {
            wait.started = true;
            IncrementalRunnerDiagnostics::increment(&mut self.diagnostics.wait_ready_calls);
        }
        let result = self.poll_sources(state, platform, cx);
        match &result {
            PollState::Pending => {},
            PollState::Ready(Ok(ready)) => {
                IncrementalRunnerDiagnostics::increment(
                    &mut self.diagnostics.wait_ready_completions,
                );
                if ready.is_empty() {
                    IncrementalRunnerDiagnostics::increment(
                        &mut self.diagnostics.immediate_ready_completions,
                    );
                }
                self.diagnostics.record_ready(*ready);
            },
            PollState::Ready(Err(_)) => {
                IncrementalRunnerDiagnostics::increment(&mut self.diagnostics.wait_ready_errors);
            },
        }
        result
    }

    /// Poll the announced sources once.
    fn poll_sources<P: IncrementalWaitPlatform>(
        &self,
        state: &mut RadioState<EVENTS>,
        platform: &mut P,
        cx: &mut Context<'_>,
    ) -> (result: PollState<Result<WaitSet, IncrementalWaitError<P::Error>>>)
        ensures
            wait_steps(
                self.backend_state(),
                self@.driver,
                old(state)@,
                *old(platform),
                *final(platform),
                result,
            ),
            final(state).wf() == old(state).wf(),
            final(state)@ == old(state)@,
            waits_for_sources(
                self@.driver,
                old(state).waiters(),
                final(state).waiters(),
                result is Pending,
            ),
    {
        let intent = self.wait_intent(state);
        if intent.run_immediately() {
            let ready = if !state.cancellations.is_empty() {
                WaitSet::cancel()
            } else {
                WaitSet::empty()
            };
            let result = PollState::Ready(Ok(ready));
            assert(wait_polls(intent, state@, None::<PlatformPoll<P::Error>>, result));
            return result;
        }
        let subscribed = intent.sources();
        proof {
            lemma_channel_sources(self@.driver, state@, intent);
        }
        let mut ready = WaitSet::empty();
        if subscribed.contains(WaitSet::command()) && state.commands.poll_ready_to_receive(cx) {
            ready = ready.union(WaitSet::command());
        }
        if subscribed.contains(WaitSet::cancel()) && state.cancellations.poll_ready_to_receive(
            cx,
        ) {
            ready = ready.union(WaitSet::cancel());
        }
        proof {
            assert(0u8 | 1u8 == 1u8) by (bit_vector);
        }
        let platform_sources = subscribed.without(WaitSet::command()).without(WaitSet::cancel());
        if platform_sources.is_empty() {
            let result = Self::ready_or_pending(ready);
            assert(wait_polls(intent, state@, None::<PlatformPoll<P::Error>>, result));
            return result;
        }
        let answer = platform.poll_ready(cx, platform_sources, intent.deadline_us());
        let ghost poll = Some(
            PlatformPoll {
                sources: platform_sources,
                deadline_us: intent.deadline_us,
                result: answer,
            },
        );
        let result = match answer {
            PollState::Pending => Self::ready_or_pending(ready),
            PollState::Ready(Err(error)) => PollState::Ready(
                Err(IncrementalWaitError::Platform(error)),
            ),
            PollState::Ready(Ok(platform_ready)) => {
                if !platform_ready.without(platform_sources).is_empty() {
                    PollState::Ready(
                        Err(
                            IncrementalWaitError::UnexpectedSources {
                                subscribed: platform_sources,
                                ready: platform_ready,
                            },
                        ),
                    )
                } else {
                    Self::ready_or_pending(ready.union(platform_ready))
                }
            },
        };
        assert(wait_polls(intent, state@, poll, result));
        result
    }

    fn ready_or_pending<E>(ready: WaitSet) -> (result: PollState<
        Result<WaitSet, IncrementalWaitError<E>>,
    >)
        ensures
            result == ready_unless_empty::<E>(ready@),
    {
        if ready.is_empty() {
            PollState::Pending
        } else {
            PollState::Ready(Ok(ready))
        }
    }

    /// Snapshot runner workload and wake-source counters.
    pub fn diagnostics(&self) -> (counters: IncrementalRunnerDiagnostics)
        ensures
            counters == self@.counters,
    {
        self.diagnostics
    }

    /// Borrow the chip backend for platform wake registration and diagnostics.
    pub fn backend(&self) -> (backend: &B)
        ensures
            *backend == self.backend_state(),
    {
        self.driver.backend()
    }

    fn submit_command(&mut self, state: &mut RadioState<EVENTS>, command: Command) -> (result: Result<
        (),
        IncrementalRadioRunnerError,
    >)
        requires
            old(self).wf(),
            old(state).wf(),
            old(self)@.driver.commands.pending is None,
        ensures
            final(self).wf(),
            final(state).wf(),
            final(self).backend_state() == old(self).backend_state(),
            if command.sequence == 0 {
                &&& result is Err
                &&& result->Err_0 == IncrementalRadioRunnerError::InvalidCommandSequence
                &&& final(self)@ == old(self)@
                &&& final(state)@ == refused(old(state)@, 0)
            } else {
                &&& result is Ok
                &&& final(self)@ == old(self)@.accepting(command)
                &&& final(state)@ == old(state)@
            },
            crate::state::wakes(
                old(state)@,
                old(state).waiters(),
                final(state)@,
                final(state).waiters(),
            ),
    {
        let raw_sequence = command.sequence;
        let sequence = match CommandSequence::try_from_raw(raw_sequence) {
            Some(sequence) => sequence,
            None => {
                Self::signal_protocol(state, raw_sequence);
                return Err(IncrementalRadioRunnerError::InvalidCommandSequence);
            },
        };
        let kind = CommandKindTag::from_command(&command.kind);
        proof {
            lemma_ledger(self.ledger@, (sequence, kind));
            lemma_room(old(self)@);
        }
        if !self.ledger.insert(sequence, kind) {
            Self::signal_protocol(state, raw_sequence);
            return Err(IncrementalRadioRunnerError::CommandCapacity);
        }
        let request = match command.kind {
            CommandKind::Initialize => IncrementalRequest::Initialize(self.config),
            CommandKind::Scan(config) => IncrementalRequest::Scan(config),
            CommandKind::Connect(config) => IncrementalRequest::Connect(config),
            CommandKind::Disconnect => IncrementalRequest::Disconnect(self.config),
        };
        if let Err(error) = self.driver.submit(sequence, request) {
            let _ = self.ledger.remove(sequence);
            Self::signal_protocol(state, raw_sequence);
            return Err(Self::submit_error(error));
        }
        proof {
            lemma_submitted(old(self)@.driver, self@.driver, sequence, request);
        }
        Ok(())
    }

    fn submit_error(error: SubmitError<IncrementalRequest>) -> (reason: IncrementalRadioRunnerError)
        ensures
            reason == IncrementalRadioRunnerError::CommandArbiter(error@.0),
    {
        IncrementalRadioRunnerError::CommandArbiter(error.reason())
    }

    fn publish_terminal(&mut self, state: &mut RadioState<EVENTS>, event: IncrementalDriverEvent) -> (result:
        Result<(), IncrementalRadioRunnerError>)
        requires
            old(state).wf(),
        ensures
            final(state).wf(),
            final(self).backend_state() == old(self).backend_state(),
            final(self)@ == (FacadeModel {
                ledger: settled(old(self)@.ledger, event),
                ..old(self)@
            }),
            exists|capabilities: Option<WifiL2Capabilities>|
                {
                    &&& final(state)@ == #[trigger] answered(
                        old(self)@.ledger,
                        old(state)@,
                        EVENTS as nat,
                        event,
                        capabilities,
                    )
                    &&& result is Ok && initialization_completed(Ok(event))
                        ==> capabilities_answered(final(self).backend_state(), capabilities)
                },
            match answer_failure(old(self)@.ledger, event) {
                None => result is Ok,
                Some(error) => result is Err && result->Err_0 == error,
            },
            crate::state::wakes(
                old(state)@,
                old(state).waiters(),
                final(state)@,
                final(state).waiters(),
            ),
    {
        let mut capabilities: Option<WifiL2Capabilities> = None;
        match event {
            IncrementalDriverEvent::Completed { sequence, completion } => {
                let kind = match self.ledger.remove(sequence) {
                    Some(kind) => kind,
                    None => {
                        Self::signal_protocol(state, sequence.get());
                        assert(state@ == answered(
                            old(self)@.ledger,
                            old(state)@,
                            EVENTS as nat,
                            event,
                            None,
                        ));
                        return Err(IncrementalRadioRunnerError::MissingCommand);
                    },
                };
                let (completion, wifi_event) = match Self::successful_completion(
                    kind,
                    completion,
                ) {
                    Some(success) => success,
                    None => {
                        Self::signal_protocol(state, sequence.get());
                        assert(state@ == answered(
                            old(self)@.ledger,
                            old(state)@,
                            EVENTS as nat,
                            event,
                            None,
                        ));
                        return Err(IncrementalRadioRunnerError::CompletionMismatch);
                    },
                };
                if kind == CommandKindTag::Initialize {
                    capabilities = self.driver.backend().l2_capabilities();
                    if let Some(capabilities) = capabilities {
                        state.l2_capabilities.publish_once(capabilities);
                    }
                }
                state.publish_event(wifi_event);
                state.completion.signal(
                    Completion { sequence: sequence.get(), kind: completion },
                );
            },
            IncrementalDriverEvent::Cancelled { sequence, .. } => {
                let kind = match self.ledger.remove(sequence) {
                    Some(kind) => kind,
                    None => {
                        Self::signal_protocol(state, sequence.get());
                        assert(state@ == answered(
                            old(self)@.ledger,
                            old(state)@,
                            EVENTS as nat,
                            event,
                            None,
                        ));
                        return Err(IncrementalRadioRunnerError::MissingCommand);
                    },
                };
                let error = BackendError::new(BackendErrorClass::Cancelled, RUNNER_CANCELLED_CODE);
                Self::publish_failed(state, sequence, kind, error);
            },
            IncrementalDriverEvent::Failed { sequence, error, .. } => {
                let kind = match self.ledger.remove(sequence) {
                    Some(kind) => kind,
                    None => {
                        Self::signal_protocol(state, sequence.get());
                        assert(state@ == answered(
                            old(self)@.ledger,
                            old(state)@,
                            EVENTS as nat,
                            event,
                            None,
                        ));
                        return Err(IncrementalRadioRunnerError::MissingCommand);
                    },
                };
                Self::publish_failed(state, sequence, kind, error);
            },
            IncrementalDriverEvent::Idle
            | IncrementalDriverEvent::Started { .. }
            | IncrementalDriverEvent::CancelRequested { .. }
            | IncrementalDriverEvent::Waiting { .. }
            | IncrementalDriverEvent::Pending { .. }
            | IncrementalDriverEvent::BudgetExhausted { .. } => {},
        }
        assert(state@ == answered(
            old(self)@.ledger,
            old(state)@,
            EVENTS as nat,
            event,
            capabilities,
        ));
        Ok(())
    }

    fn successful_completion(kind: CommandKindTag, completion: IncrementalCompletion) -> (success:
        Option<(CompletionKind, WifiEvent)>)
        ensures
            success == success_of(kind, completion),
    {
        match (kind, completion) {
            (CommandKindTag::Initialize, IncrementalCompletion::Initialized) => Some(
                (CompletionKind::Initialize(Ok(())), WifiEvent::Initialized),
            ),
            (CommandKindTag::Scan, IncrementalCompletion::Scan(outcome)) => Some(
                (
                    CompletionKind::Scan(Ok(outcome)),
                    WifiEvent::ScanCompleted {
                        count: outcome.count,
                        truncated: outcome.truncated,
                    },
                ),
            ),
            (CommandKindTag::Connect, IncrementalCompletion::Connected(info)) => Some(
                (CompletionKind::Connect(Ok(info)), WifiEvent::Connected(info)),
            ),
            (CommandKindTag::Disconnect, IncrementalCompletion::Disconnected) => Some(
                (CompletionKind::Disconnect(Ok(())), WifiEvent::Disconnected { reason: 0 }),
            ),
            _ => None,
        }
    }

    fn publish_failed(
        state: &mut RadioState<EVENTS>,
        sequence: CommandSequence,
        kind: CommandKindTag,
        error: BackendError,
    )
        requires
            old(state).wf(),
        ensures
            final(state).wf(),
            final(state)@ == failed(old(state)@, EVENTS as nat, sequence, kind, error),
            final(state).waiters() == (Waiters {
                completion: false,
                event: false,
                ..old(state).waiters()
            }),
    {
        let completion = match kind {
            CommandKindTag::Initialize => CompletionKind::Initialize(Err(error)),
            CommandKindTag::Scan => CompletionKind::Scan(Err(error)),
            CommandKindTag::Connect => CompletionKind::Connect(Err(error)),
            CommandKindTag::Disconnect => CompletionKind::Disconnect(Err(error)),
        };
        state.publish_event(WifiEvent::Failed(error));
        state.completion.signal(Completion { sequence: sequence.get(), kind: completion });
    }

    fn signal_protocol(state: &mut RadioState<EVENTS>, sequence: u32)
        requires
            old(state).wf(),
        ensures
            final(state).wf(),
            final(state)@ == refused(old(state)@, sequence),
            final(state).waiters() == (Waiters { completion: false, ..old(state).waiters() }),
    {
        state.completion.signal(Completion { sequence, kind: CompletionKind::Protocol });
    }
}

/// A wait subscribes to cancellations, and to commands while one can be
/// accepted.
proof fn lemma_channel_sources(
    driver: DriverModel,
    state: RadioModel,
    intent: IncrementalWaitIntent,
)
    requires
        exists|deadline: Option<u64>| intent == #[trigger] facade_intent(driver, deadline, state),
    ensures
        intent.sources.has(CANCEL_BIT),
        driver.commands.pending is None ==> intent.sources.has(COMMAND_BIT),
{
    let deadline = choose|deadline: Option<u64>|
        intent == #[trigger] facade_intent(driver, deadline, state);
    let bits = driver.intent(deadline).sources@;
    assert((bits | 16) & 16 == 16 && ((bits | 1) | 16) & 16 == 16 && ((bits | 1) | 16) & 1 == 1)
        by (bit_vector);
}

/// Taking the ended command out of the ledger keeps it in step with the driver.
proof fn lemma_settled(
    ledger: LedgerModel,
    pre: DriverModel,
    post: DriverModel,
    event: IncrementalDriverEvent,
)
    requires
        ledger.sequences() == pre.owned(),
        match event.ends() {
            Some(sequence) => {
                &&& pre.owned().count(sequence) > 0
                &&& post.owned() == pre.owned().remove(sequence)
            },
            None => post.owned() == pre.owned(),
        },
    ensures
        settled(ledger, event).sequences() == post.owned(),
        event.ends() matches Some(sequence) ==> ledger.kind(sequence) is Some,
{
    if let Some(sequence) = event.ends() {
        lemma_ledger(ledger, (sequence, CommandKindTag::Initialize));
    }
}

/// While nothing is pending, the ledger has a free slot.
proof fn lemma_room(model: FacadeModel)
    requires
        model.wf(),
        model.driver.commands.pending is None,
    ensures
        !model.ledger.is_full(),
{
    broadcast use vstd::multiset::group_multiset_axioms;

    assert(model.driver.owned().len() <= 1);
    assert(model.ledger.sequences().len() <= 1);
}

/// Submitting a command adds it to the owned ones.
proof fn lemma_submitted(
    pre: DriverModel,
    post: DriverModel,
    sequence: CommandSequence,
    request: IncrementalRequest,
)
    requires
        pre.commands.pending is None,
        post.commands == (ArbiterModel { pending: Some((sequence, request)), ..pre.commands }),
    ensures
        post.owned() == pre.owned().insert(sequence),
{
}

/// A command that a step ends is answered in the same step: its completion is
/// signalled under its sequence and carries what the command ended with.
pub proof fn ended_command_is_answered(
    pre: FacadeModel,
    before: RadioModel,
    capacity: nat,
    ready: WaitSet,
    deadline: Option<u64>,
    capabilities: Option<WifiL2Capabilities>,
    call: Option<IncrementalCall>,
    post: FacadeModel,
    after: RadioModel,
    result: Result<IncrementalDriverEvent, IncrementalRadioRunnerError>,
)
    requires
        pre.wf(),
        runs_once(
            pre,
            before,
            capacity,
            ready,
            deadline,
            capabilities,
            call,
            post,
            after,
            result,
        ),
        result matches Ok(event) && event.ends() is Some,
    ensures
        answers_end(after, result),
{
    let entered = pre.entered(ready);
    if pre.driver.commands.pending is Some || before.commands.len() == 0 {
        lemma_serving_answers(
            entered,
            before,
            capacity,
            ready,
            deadline,
            capabilities,
            call,
            post,
            after,
            result,
        );
    } else {
        lemma_serving_answers(
            entered.accepting(before.commands[0]),
            RadioModel { commands: before.commands.drop_first(), ..before },
            capacity,
            ready,
            deadline,
            capabilities,
            call,
            post,
            after,
            result,
        );
    }
}

/// The failure inside a completion, if it carries one.
pub open spec fn failure_in(kind: CompletionKind) -> Option<BackendError> {
    match kind {
        CompletionKind::Initialize(Err(error)) => Some(error),
        CompletionKind::Scan(Err(error)) => Some(error),
        CompletionKind::Connect(Err(error)) => Some(error),
        CompletionKind::Disconnect(Err(error)) => Some(error),
        _ => None,
    }
}

/// The completion carries what `event` ended with: the outcome of a success,
/// the backend's failure, or the cancellation.
pub open spec fn carries(kind: CompletionKind, event: IncrementalDriverEvent) -> bool {
    match event {
        IncrementalDriverEvent::Completed { completion, .. } => kind == match completion {
            IncrementalCompletion::Initialized => CompletionKind::Initialize(Ok(())),
            IncrementalCompletion::Scan(outcome) => CompletionKind::Scan(Ok(outcome)),
            IncrementalCompletion::Connected(info) => CompletionKind::Connect(Ok(info)),
            IncrementalCompletion::Disconnected => CompletionKind::Disconnect(Ok(())),
        },
        IncrementalDriverEvent::Cancelled { .. } => failure_in(kind) == Some(cancelled_error()),
        IncrementalDriverEvent::Failed { error, .. } => failure_in(kind) == Some(error),
        _ => false,
    }
}

/// The completion of the command that `result` ends is signalled under its
/// sequence and carries what the command ended with.
pub open spec fn answers_end(
    after: RadioModel,
    result: Result<IncrementalDriverEvent, IncrementalRadioRunnerError>,
) -> bool {
    after.completion matches Some(completion) && {
        &&& completion.sequence == result->Ok_0.ends()->Some_0@
        &&& carries(completion.kind, result->Ok_0)
    }
}

/// The operation of a command that was ended returns its result: polled next,
/// it is over and hands out what the command ended with.
pub proof fn ended_operation_returns_its_result(
    after: RadioModel,
    result: Result<IncrementalDriverEvent, IncrementalRadioRunnerError>,
    operation: OperationModel,
    post: OperationModel,
    polled: RadioModel,
    answer: PollState<CompletionKind>,
)
    requires
        answers_end(after, result),
        operation.unsent is None,
        operation.sequence == result->Ok_0.ends()->Some_0@,
        crate::radio::operation_polls(operation, after, post, polled, answer),
    ensures
        answer matches PollState::Ready(kind) && carries(kind, result->Ok_0),
        post.over,
{
}

proof fn lemma_conclusion_answers(
    pre: FacadeModel,
    before: RadioModel,
    capacity: nat,
    driven: Result<IncrementalDriverEvent, IncrementalDriverError>,
    capabilities: Option<WifiL2Capabilities>,
    post: FacadeModel,
    after: RadioModel,
    result: Result<IncrementalDriverEvent, IncrementalRadioRunnerError>,
)
    requires
        concludes(pre, before, capacity, driven, capabilities, post, after, result),
        result matches Ok(event) && event.ends() is Some,
    ensures
        answers_end(after, result),
{
}

proof fn lemma_serving_answers(
    pre: FacadeModel,
    before: RadioModel,
    capacity: nat,
    ready: WaitSet,
    deadline: Option<u64>,
    capabilities: Option<WifiL2Capabilities>,
    call: Option<IncrementalCall>,
    post: FacadeModel,
    after: RadioModel,
    result: Result<IncrementalDriverEvent, IncrementalRadioRunnerError>,
)
    requires
        serves_cancellation(
            pre,
            before,
            capacity,
            ready,
            deadline,
            capabilities,
            call,
            post,
            after,
            result,
        ),
        result matches Ok(event) && event.ends() is Some,
    ensures
        answers_end(after, result),
{
    let taken = if before.cancellations.len() == 0 {
        before
    } else {
        RadioModel { cancellations: before.cancellations.drop_first(), ..before }
    };
    let scanned = RadioModel {
        scan_results: crate::incremental::buffer_after(taken.scan_results, call),
        ..taken
    };
    if before.cancellations.len() > 0 && pre.driver.cancels_on_request(
        CommandSequence::of(before.cancellations[0]),
    ) {
        lemma_conclusion_answers(
            pre,
            taken,
            capacity,
            Ok(result->Ok_0),
            capabilities,
            post,
            after,
            result,
        );
    } else {
        let driven = choose|driven: Result<IncrementalDriverEvent, IncrementalDriverError>|
            {
                &&& #[trigger] crate::incremental::driver::drives(
                    pre.driver,
                    WaitSet::of(ready@ & !CANCEL_BIT),
                    deadline,
                    call,
                    post.driver,
                    driven,
                )
                &&& concludes(
                    pre,
                    scanned,
                    capacity,
                    driven,
                    capabilities,
                    post,
                    after,
                    result,
                )
            };
        lemma_conclusion_answers(
            pre,
            scanned,
            capacity,
            driven,
            capabilities,
            post,
            after,
            result,
        );
    }
}

/// Kind of the command that a completion answers, unless it is a protocol
/// failure.
pub open spec fn answered_kind(kind: CompletionKind) -> Option<CommandKindTag> {
    match kind {
        CompletionKind::Initialize(_) => Some(CommandKindTag::Initialize),
        CompletionKind::Scan(_) => Some(CommandKindTag::Scan),
        CompletionKind::Connect(_) => Some(CommandKindTag::Connect),
        CompletionKind::Disconnect(_) => Some(CommandKindTag::Disconnect),
        CompletionKind::Protocol => None,
    }
}

/// The command behind `sequence` is still recorded under `kind`, or a completion
/// of that kind or a protocol failure was signalled under its sequence.
pub open spec fn kept_or_answered(
    post: FacadeModel,
    after: RadioModel,
    sequence: CommandSequence,
    kind: CommandKindTag,
) -> bool {
    ||| post.ledger.kind(sequence) == Some(kind)
    ||| after.completion matches Some(completion) && completion.sequence == sequence@ && {
        ||| completion.kind is Protocol
        ||| answered_kind(completion.kind) == Some(kind)
    }
}

/// No accepted command is lost or answered in another kind: a step keeps it on
/// record, or signals a completion of its own kind or a protocol failure under
/// its sequence. A command that arrives meanwhile has another sequence.
pub proof fn accepted_command_is_kept_or_answered(
    pre: FacadeModel,
    before: RadioModel,
    capacity: nat,
    ready: WaitSet,
    deadline: Option<u64>,
    capabilities: Option<WifiL2Capabilities>,
    call: Option<IncrementalCall>,
    post: FacadeModel,
    after: RadioModel,
    result: Result<IncrementalDriverEvent, IncrementalRadioRunnerError>,
    sequence: CommandSequence,
    kind: CommandKindTag,
)
    requires
        pre.wf(),
        pre.ledger.kind(sequence) == Some(kind),
        before.commands.len() > 0 ==> CommandSequence::of(before.commands[0].sequence) != sequence,
        runs_once(
            pre,
            before,
            capacity,
            ready,
            deadline,
            capabilities,
            call,
            post,
            after,
            result,
        ),
    ensures
        kept_or_answered(post, after, sequence, kind),
{
    let entered = pre.entered(ready);
    if pre.driver.commands.pending is Some || before.commands.len() == 0 {
        lemma_serving_keeps_or_answers(
            entered,
            before,
            capacity,
            ready,
            deadline,
            capabilities,
            call,
            post,
            after,
            result,
            sequence,
            kind,
        );
    } else if before.commands[0].sequence != 0 {
        lemma_room(pre);
        lemma_serving_keeps_or_answers(
            entered.accepting(before.commands[0]),
            RadioModel { commands: before.commands.drop_first(), ..before },
            capacity,
            ready,
            deadline,
            capabilities,
            call,
            post,
            after,
            result,
            sequence,
            kind,
        );
    }
}

proof fn lemma_conclusion_keeps_or_answers(
    pre: FacadeModel,
    before: RadioModel,
    capacity: nat,
    driven: Result<IncrementalDriverEvent, IncrementalDriverError>,
    capabilities: Option<WifiL2Capabilities>,
    post: FacadeModel,
    after: RadioModel,
    result: Result<IncrementalDriverEvent, IncrementalRadioRunnerError>,
    sequence: CommandSequence,
    kind: CommandKindTag,
)
    requires
        pre.ledger.kind(sequence) == Some(kind),
        concludes(pre, before, capacity, driven, capabilities, post, after, result),
    ensures
        kept_or_answered(post, after, sequence, kind),
{
}

proof fn lemma_serving_keeps_or_answers(
    pre: FacadeModel,
    before: RadioModel,
    capacity: nat,
    ready: WaitSet,
    deadline: Option<u64>,
    capabilities: Option<WifiL2Capabilities>,
    call: Option<IncrementalCall>,
    post: FacadeModel,
    after: RadioModel,
    result: Result<IncrementalDriverEvent, IncrementalRadioRunnerError>,
    sequence: CommandSequence,
    kind: CommandKindTag,
)
    requires
        pre.ledger.kind(sequence) == Some(kind),
        serves_cancellation(
            pre,
            before,
            capacity,
            ready,
            deadline,
            capabilities,
            call,
            post,
            after,
            result,
        ),
    ensures
        kept_or_answered(post, after, sequence, kind),
{
    let taken = if before.cancellations.len() == 0 {
        before
    } else {
        RadioModel { cancellations: before.cancellations.drop_first(), ..before }
    };
    let scanned = RadioModel {
        scan_results: crate::incremental::buffer_after(taken.scan_results, call),
        ..taken
    };
    if before.cancellations.len() > 0 && before.cancellations[0] == 0 {
    } else if before.cancellations.len() > 0 && pre.driver.cancels_on_request(
        CommandSequence::of(before.cancellations[0]),
    ) {
        lemma_conclusion_keeps_or_answers(
            pre,
            taken,
            capacity,
            Ok(result->Ok_0),
            capabilities,
            post,
            after,
            result,
            sequence,
            kind,
        );
    } else {
        let driven = choose|driven: Result<IncrementalDriverEvent, IncrementalDriverError>|
            {
                &&& #[trigger] crate::incremental::driver::drives(
                    pre.driver,
                    WaitSet::of(ready@ & !CANCEL_BIT),
                    deadline,
                    call,
                    post.driver,
                    driven,
                )
                &&& concludes(
                    pre,
                    scanned,
                    capacity,
                    driven,
                    capabilities,
                    post,
                    after,
                    result,
                )
            };
        lemma_conclusion_keeps_or_answers(
            pre,
            scanned,
            capacity,
            driven,
            capabilities,
            post,
            after,
            result,
            sequence,
            kind,
        );
    }
}

/// The bounded bookkeeping never fails: a step is refused only for a zero
/// sequence, a completion of another kind, or a transition that the backend's
/// own answer made impossible.
pub proof fn bookkeeping_never_fails(
    pre: FacadeModel,
    before: RadioModel,
    capacity: nat,
    ready: WaitSet,
    deadline: Option<u64>,
    capabilities: Option<WifiL2Capabilities>,
    call: Option<IncrementalCall>,
    post: FacadeModel,
    after: RadioModel,
    result: Result<IncrementalDriverEvent, IncrementalRadioRunnerError>,
)
    requires
        pre.wf(),
        runs_once(
            pre,
            before,
            capacity,
            ready,
            deadline,
            capabilities,
            call,
            post,
            after,
            result,
        ),
    ensures
        result matches Err(error) ==> {
            ||| error is InvalidCommandSequence
            ||| error is CompletionMismatch
            ||| error == IncrementalRadioRunnerError::Driver(
                IncrementalDriverError::Arbiter(CommandArbiterError::InvalidTransition),
            )
            ||| error matches IncrementalRadioRunnerError::Driver(
                IncrementalDriverError::Runner(inner),
            ) && inner is StaleReport
        },
{
    let entered = pre.entered(ready);
    if pre.driver.commands.pending is Some || before.commands.len() == 0 {
        lemma_serving_finds_the_command(
            entered,
            before,
            capacity,
            ready,
            deadline,
            capabilities,
            call,
            post,
            after,
            result,
        );
    } else if before.commands[0].sequence != 0 {
        let command = before.commands[0];
        let sequence = CommandSequence::of(command.sequence);
        lemma_ledger(pre.ledger, (sequence, CommandKindTag::of(command.kind)));
        lemma_room(pre);
        lemma_submitted(
            entered.driver,
            entered.accepting(command).driver,
            sequence,
            request_for(command.kind, pre.config),
        );
        lemma_serving_finds_the_command(
            entered.accepting(command),
            RadioModel { commands: before.commands.drop_first(), ..before },
            capacity,
            ready,
            deadline,
            capabilities,
            call,
            post,
            after,
            result,
        );
    }
}

proof fn lemma_serving_finds_the_command(
    pre: FacadeModel,
    before: RadioModel,
    capacity: nat,
    ready: WaitSet,
    deadline: Option<u64>,
    capabilities: Option<WifiL2Capabilities>,
    call: Option<IncrementalCall>,
    post: FacadeModel,
    after: RadioModel,
    result: Result<IncrementalDriverEvent, IncrementalRadioRunnerError>,
)
    requires
        pre.wf(),
        serves_cancellation(
            pre,
            before,
            capacity,
            ready,
            deadline,
            capabilities,
            call,
            post,
            after,
            result,
        ),
    ensures
        result matches Err(error) ==> {
            ||| error is InvalidCommandSequence
            ||| error is CompletionMismatch
            ||| error == IncrementalRadioRunnerError::Driver(
                IncrementalDriverError::Arbiter(CommandArbiterError::InvalidTransition),
            )
            ||| error matches IncrementalRadioRunnerError::Driver(
                IncrementalDriverError::Runner(inner),
            ) && inner is StaleReport
        },
{
    let cleared = WaitSet::of(ready@ & !CANCEL_BIT);
    if result is Err && !(result->Err_0 is InvalidCommandSequence) {
        let driven = choose|driven: Result<IncrementalDriverEvent, IncrementalDriverError>|
            {
                &&& #[trigger] crate::incremental::driver::drives(
                    pre.driver,
                    cleared,
                    deadline,
                    call,
                    post.driver,
                    driven,
                )
                &&& result matches Err(error) && match driven {
                    Err(inner) => error == IncrementalRadioRunnerError::Driver(inner),
                    Ok(event) => answer_failure(pre.ledger, event) == Some(error),
                }
            };
        crate::incremental::driver::driving_conserves_commands(
            pre.driver,
            cleared,
            deadline,
            call,
            post.driver,
            driven,
        );
        if let Ok(event) = driven {
            lemma_settled(pre.ledger, pre.driver, post.driver, event);
        }
    }
}

/// A wait that ends at once promises work: the next step calls the backend,
/// takes a command or a cancellation, or reports a failure.
pub proof fn immediate_wait_is_followed_by_work(
    pre: FacadeModel,
    before: RadioModel,
    capacity: nat,
    ready: WaitSet,
    deadline: Option<u64>,
    capabilities: Option<WifiL2Capabilities>,
    call: Option<IncrementalCall>,
    post: FacadeModel,
    after: RadioModel,
    result: Result<IncrementalDriverEvent, IncrementalRadioRunnerError>,
)
    requires
        pre.wf(),
        facade_intent(pre.driver, deadline, before).run_immediately,
        runs_once(
            pre,
            before,
            capacity,
            ready,
            deadline,
            capabilities,
            call,
            post,
            after,
            result,
        ),
    ensures
        call is Some || result is Err || after.commands.len() < before.commands.len()
            || after.cancellations.len() < before.cancellations.len(),
{
    let cleared = WaitSet::of(ready@ & !CANCEL_BIT);
    let entered = pre.entered(ready);
    let accepts = pre.driver.commands.pending is None && before.commands.len() > 0;
    if !accepts && before.cancellations.len() == 0 {
        assert(entered.driver == pre.driver);
        let driven = choose|driven: Result<IncrementalDriverEvent, IncrementalDriverError>|
            {
                &&& #[trigger] crate::incremental::driver::drives(
                    entered.driver,
                    cleared,
                    deadline,
                    call,
                    post.driver,
                    driven,
                )
                &&& driven is Err ==> result is Err
            };
        crate::incremental::driver::immediate_work_does_not_wait(
            pre.driver,
            cleared,
            deadline,
            call,
            post.driver,
            driven,
        );
    }
}

proof fn lemma_serving_starts_the_pending(
    pre: FacadeModel,
    before: RadioModel,
    capacity: nat,
    ready: WaitSet,
    deadline: Option<u64>,
    capabilities: Option<WifiL2Capabilities>,
    call: Option<IncrementalCall>,
    post: FacadeModel,
    after: RadioModel,
    result: Result<IncrementalDriverEvent, IncrementalRadioRunnerError>,
)
    requires
        pre.wf(),
        serves_cancellation(
            pre,
            before,
            capacity,
            ready,
            deadline,
            capabilities,
            call,
            post,
            after,
            result,
        ),
    ensures
        post.config == pre.config,
        post.driver.budget == pre.driver.budget,
        call matches Some(IncrementalCall::Poll { budget, .. }) ==> budget == pre.driver.budget,
        call matches Some(IncrementalCall::Start { request, .. }) ==> (
        pre.driver.commands.pending matches Some((_, pending)) && request == pending),
        post.driver.commands.pending is Some ==> post.driver.commands.pending
            == pre.driver.commands.pending,
        after.commands == before.commands,
        after.cancellations == if before.cancellations.len() == 0 {
            before.cancellations
        } else {
            before.cancellations.drop_first()
        },
        after.scan_results == match call {
            Some(IncrementalCall::Poll { output, .. }) => output,
            _ => before.scan_results,
        },
{
    let taken = if before.cancellations.len() == 0 {
        before
    } else {
        RadioModel { cancellations: before.cancellations.drop_first(), ..before }
    };
    let scanned = RadioModel {
        scan_results: crate::incremental::buffer_after(taken.scan_results, call),
        ..taken
    };
    if before.cancellations.len() > 0 && before.cancellations[0] == 0 {
    } else if before.cancellations.len() > 0 && pre.driver.cancels_on_request(
        CommandSequence::of(before.cancellations[0]),
    ) {
    } else {
        let driven = choose|driven: Result<IncrementalDriverEvent, IncrementalDriverError>|
            {
                &&& #[trigger] crate::incremental::driver::drives(
                    pre.driver,
                    WaitSet::of(ready@ & !CANCEL_BIT),
                    deadline,
                    call,
                    post.driver,
                    driven,
                )
                &&& concludes(
                    pre,
                    scanned,
                    capacity,
                    driven,
                    capabilities,
                    post,
                    after,
                    result,
                )
            };
    }
}

/// The backend is asked for exactly what was commanded: a start carries the request
/// that was retained before, or that of the command accepted in the same step. An
/// initialization and a disconnection carry the runner's configuration, a scan and
/// an association the caller's own request. A command that is retained is retained
/// in the same form, under its own sequence. The configuration never changes.
pub proof fn start_carries_what_was_commanded(
    pre: FacadeModel,
    before: RadioModel,
    capacity: nat,
    ready: WaitSet,
    deadline: Option<u64>,
    capabilities: Option<WifiL2Capabilities>,
    call: Option<IncrementalCall>,
    post: FacadeModel,
    after: RadioModel,
    result: Result<IncrementalDriverEvent, IncrementalRadioRunnerError>,
)
    requires
        pre.wf(),
        runs_once(
            pre,
            before,
            capacity,
            ready,
            deadline,
            capabilities,
            call,
            post,
            after,
            result,
        ),
    ensures
        post.config == pre.config,
        call matches Some(IncrementalCall::Start { request, .. }) ==> match pre.driver.commands.pending {
            Some((_, pending)) => request == pending,
            None => before.commands.len() > 0 && match before.commands[0].kind {
                CommandKind::Initialize => request == IncrementalRequest::Initialize(pre.config),
                CommandKind::Scan(asked) => request == IncrementalRequest::Scan(asked),
                CommandKind::Connect(asked) => request == IncrementalRequest::Connect(asked),
                CommandKind::Disconnect => request == IncrementalRequest::Disconnect(pre.config),
            },
        },
        post.driver.commands.pending matches Some((sequence, request))
            ==> match pre.driver.commands.pending {
            Some((owner, pending)) => sequence == owner && request == pending,
            None => before.commands.len() > 0 && sequence@ == before.commands[0].sequence && match before.commands[0].kind {
                CommandKind::Initialize => request == IncrementalRequest::Initialize(pre.config),
                CommandKind::Scan(asked) => request == IncrementalRequest::Scan(asked),
                CommandKind::Connect(asked) => request == IncrementalRequest::Connect(asked),
                CommandKind::Disconnect => request == IncrementalRequest::Disconnect(pre.config),
            },
        },
{
    let entered = pre.entered(ready);
    if pre.driver.commands.pending is Some || before.commands.len() == 0 {
        lemma_serving_starts_the_pending(
            entered,
            before,
            capacity,
            ready,
            deadline,
            capabilities,
            call,
            post,
            after,
            result,
        );
    } else if before.commands[0].sequence != 0 {
        let command = before.commands[0];
        lemma_accepting_keeps_wf(entered, command);
        lemma_serving_starts_the_pending(
            entered.accepting(command),
            RadioModel { commands: before.commands.drop_first(), ..before },
            capacity,
            ready,
            deadline,
            capabilities,
            call,
            post,
            after,
            result,
        );
    }
}

proof fn lemma_accepting_keeps_wf(pre: FacadeModel, command: Command)
    requires
        pre.wf(),
        pre.driver.commands.pending is None,
        command.sequence != 0,
    ensures
        pre.accepting(command).wf(),
{
    let sequence = CommandSequence::of(command.sequence);
    lemma_ledger(pre.ledger, (sequence, CommandKindTag::of(command.kind)));
    lemma_room(pre);
    lemma_submitted(
        pre.driver,
        pre.accepting(command).driver,
        sequence,
        request_for(command.kind, pre.config),
    );
}

/// Initializations and disconnections always use the configuration that the radio
/// was claimed with, however long a command was retained: a step that finds such a
/// request retained with that configuration leaves it so, and starts no other.
pub proof fn configuration_reaches_the_backend_unchanged(
    pre: FacadeModel,
    before: RadioModel,
    capacity: nat,
    ready: WaitSet,
    deadline: Option<u64>,
    capabilities: Option<WifiL2Capabilities>,
    call: Option<IncrementalCall>,
    post: FacadeModel,
    after: RadioModel,
    result: Result<IncrementalDriverEvent, IncrementalRadioRunnerError>,
)
    requires
        pre.wf(),
        pre.driver.commands.pending matches Some((_, IncrementalRequest::Initialize(kept)))
            ==> kept == pre.config,
        pre.driver.commands.pending matches Some((_, IncrementalRequest::Disconnect(kept)))
            ==> kept == pre.config,
        runs_once(
            pre,
            before,
            capacity,
            ready,
            deadline,
            capabilities,
            call,
            post,
            after,
            result,
        ),
    ensures
        call matches Some(
            IncrementalCall::Start { request: IncrementalRequest::Initialize(given), .. },
        ) ==> given.initialize_timeout_ms == pre.config.initialize_timeout_ms
            && given.disconnect_timeout_ms == pre.config.disconnect_timeout_ms,
        call matches Some(
            IncrementalCall::Start { request: IncrementalRequest::Disconnect(given), .. },
        ) ==> given.initialize_timeout_ms == pre.config.initialize_timeout_ms
            && given.disconnect_timeout_ms == pre.config.disconnect_timeout_ms,
        post.driver.commands.pending matches Some((_, IncrementalRequest::Initialize(kept)))
            ==> kept == post.config,
        post.driver.commands.pending matches Some((_, IncrementalRequest::Disconnect(kept)))
            ==> kept == post.config,
        post.config == pre.config,
{
    start_carries_what_was_commanded(
        pre,
        before,
        capacity,
        ready,
        deadline,
        capabilities,
        call,
        post,
        after,
        result,
    );
}

/// Every poll of a runner is granted the budget that it was split with, and what a
/// step takes from the shared state is at most the oldest command and the oldest
/// cancellation. Only a poll replaces the retained scan results, by what the backend
/// wrote.
pub proof fn step_takes_in_order_and_polls_within_the_grant(
    pre: FacadeModel,
    before: RadioModel,
    capacity: nat,
    ready: WaitSet,
    deadline: Option<u64>,
    capabilities: Option<WifiL2Capabilities>,
    call: Option<IncrementalCall>,
    post: FacadeModel,
    after: RadioModel,
    result: Result<IncrementalDriverEvent, IncrementalRadioRunnerError>,
)
    requires
        pre.wf(),
        runs_once(
            pre,
            before,
            capacity,
            ready,
            deadline,
            capabilities,
            call,
            post,
            after,
            result,
        ),
    ensures
        post.driver.budget == pre.driver.budget,
        call matches Some(IncrementalCall::Poll { budget, .. }) ==> budget == pre.driver.budget,
        after.commands == if pre.driver.commands.pending is None && before.commands.len() > 0 {
            before.commands.drop_first()
        } else {
            before.commands
        },
        ({
            let refuses = pre.driver.commands.pending is None && before.commands.len() > 0
                && before.commands[0].sequence == 0;
            &&& before.cancellations.len() > 0 && !refuses ==> after.cancellations
                == before.cancellations.drop_first()
            &&& before.cancellations.len() == 0 || refuses ==> after.cancellations
                == before.cancellations
            &&& refuses ==> {
                &&& call is None
                &&& result is Err
                &&& result->Err_0 is InvalidCommandSequence
                &&& after.completion == Some(
                    Completion { sequence: 0, kind: CompletionKind::Protocol },
                )
            }
        }),
        call matches Some(IncrementalCall::Poll { output, .. }) ==> after.scan_results == output,
        !(call matches Some(made) && made is Poll) ==> after.scan_results == before.scan_results,
{
    let entered = pre.entered(ready);
    if pre.driver.commands.pending is Some || before.commands.len() == 0 {
        lemma_serving_starts_the_pending(
            entered,
            before,
            capacity,
            ready,
            deadline,
            capabilities,
            call,
            post,
            after,
            result,
        );
    } else if before.commands[0].sequence != 0 {
        let command = before.commands[0];
        lemma_accepting_keeps_wf(entered, command);
        lemma_serving_starts_the_pending(
            entered.accepting(command),
            RadioModel { commands: before.commands.drop_first(), ..before },
            capacity,
            ready,
            deadline,
            capabilities,
            call,
            post,
            after,
            result,
        );
    }
}

/// What ended a command is what its controller hears: the newest event and the
/// completion carry the outcome of a success, the failure of the backend, or the
/// cancellation, under the sequence of the command. A step that ends no command, or
/// fails, announces nothing.
pub proof fn end_of_a_command_is_announced(
    pre: FacadeModel,
    before: RadioModel,
    capacity: nat,
    ready: WaitSet,
    deadline: Option<u64>,
    capabilities: Option<WifiL2Capabilities>,
    call: Option<IncrementalCall>,
    post: FacadeModel,
    after: RadioModel,
    result: Result<IncrementalDriverEvent, IncrementalRadioRunnerError>,
)
    requires
        pre.wf(),
        0 < capacity,
        before.events.len() <= capacity,
        runs_once(
            pre,
            before,
            capacity,
            ready,
            deadline,
            capabilities,
            call,
            post,
            after,
            result,
        ),
    ensures
        ({
            match result {
                Ok(IncrementalDriverEvent::Completed { sequence, completion }) => {
                    &&& after.events.len() > 0
                    &&& after.completion matches Some(signalled)
                    &&& signalled.sequence == sequence@
                    &&& match completion {
                        IncrementalCompletion::Initialized => {
                            &&& after.events.last() is Initialized
                            &&& signalled.kind == CompletionKind::Initialize(Ok(()))
                            &&& before.l2_capabilities is None ==> after.l2_capabilities == capabilities
                            &&& before.l2_capabilities is Some ==> after.l2_capabilities
                                == before.l2_capabilities
                        },
                        IncrementalCompletion::Scan(outcome) => {
                            &&& after.events.last() matches WifiEvent::ScanCompleted { count, truncated }
                            &&& count == outcome.count
                            &&& truncated == outcome.truncated
                            &&& signalled.kind == CompletionKind::Scan(Ok(outcome))
                            &&& after.l2_capabilities == before.l2_capabilities
                        },
                        IncrementalCompletion::Connected(info) => {
                            &&& after.events.last() == WifiEvent::Connected(info)
                            &&& signalled.kind == CompletionKind::Connect(Ok(info))
                            &&& after.l2_capabilities == before.l2_capabilities
                        },
                        IncrementalCompletion::Disconnected => {
                            &&& after.events.last() matches WifiEvent::Disconnected { reason }
                            &&& reason == 0
                            &&& signalled.kind == CompletionKind::Disconnect(Ok(()))
                            &&& after.l2_capabilities == before.l2_capabilities
                        },
                    }
                },
                Ok(IncrementalDriverEvent::Cancelled { sequence, .. }) => {
                    &&& after.events.len() > 0
                    &&& after.events.last() matches WifiEvent::Failed(error)
                    &&& error.class is Cancelled
                    &&& error.code == 0
                    &&& after.completion matches Some(signalled)
                    &&& signalled.sequence == sequence@
                    &&& after.l2_capabilities == before.l2_capabilities
                },
                Ok(IncrementalDriverEvent::Failed { sequence, error, .. }) => {
                    &&& after.events.len() > 0
                    &&& after.events.last() matches WifiEvent::Failed(announced)
                    &&& announced.class == error.class
                    &&& announced.code == error.code
                    &&& after.completion matches Some(signalled)
                    &&& signalled.sequence == sequence@
                    &&& after.l2_capabilities == before.l2_capabilities
                },
                Ok(_) => {
                    &&& after.events == before.events
                    &&& after.completion == before.completion
                    &&& after.l2_capabilities == before.l2_capabilities
                },
                Err(_) => {
                    &&& after.events == before.events
                    &&& after.l2_capabilities == before.l2_capabilities
                },
            }
        }),
{
    let entered = pre.entered(ready);
    if pre.driver.commands.pending is Some || before.commands.len() == 0 {
        lemma_serving_announces(
            entered,
            before,
            capacity,
            ready,
            deadline,
            capabilities,
            call,
            post,
            after,
            result,
        );
    } else if before.commands[0].sequence != 0 {
        let command = before.commands[0];
        lemma_accepting_keeps_wf(entered, command);
        lemma_serving_announces(
            entered.accepting(command),
            RadioModel { commands: before.commands.drop_first(), ..before },
            capacity,
            ready,
            deadline,
            capabilities,
            call,
            post,
            after,
            result,
        );
    }
}

proof fn lemma_serving_announces(
    pre: FacadeModel,
    before: RadioModel,
    capacity: nat,
    ready: WaitSet,
    deadline: Option<u64>,
    capabilities: Option<WifiL2Capabilities>,
    call: Option<IncrementalCall>,
    post: FacadeModel,
    after: RadioModel,
    result: Result<IncrementalDriverEvent, IncrementalRadioRunnerError>,
)
    requires
        pre.wf(),
        0 < capacity,
        before.events.len() <= capacity,
        serves_cancellation(
            pre,
            before,
            capacity,
            ready,
            deadline,
            capabilities,
            call,
            post,
            after,
            result,
        ),
    ensures
        ({
            match result {
                Ok(IncrementalDriverEvent::Completed { sequence, completion }) => {
                    &&& after.events.len() > 0
                    &&& after.completion matches Some(signalled)
                    &&& signalled.sequence == sequence@
                    &&& match completion {
                        IncrementalCompletion::Initialized => {
                            &&& after.events.last() is Initialized
                            &&& signalled.kind == CompletionKind::Initialize(Ok(()))
                            &&& before.l2_capabilities is None ==> after.l2_capabilities == capabilities
                            &&& before.l2_capabilities is Some ==> after.l2_capabilities
                                == before.l2_capabilities
                        },
                        IncrementalCompletion::Scan(outcome) => {
                            &&& after.events.last() matches WifiEvent::ScanCompleted { count, truncated }
                            &&& count == outcome.count
                            &&& truncated == outcome.truncated
                            &&& signalled.kind == CompletionKind::Scan(Ok(outcome))
                            &&& after.l2_capabilities == before.l2_capabilities
                        },
                        IncrementalCompletion::Connected(info) => {
                            &&& after.events.last() == WifiEvent::Connected(info)
                            &&& signalled.kind == CompletionKind::Connect(Ok(info))
                            &&& after.l2_capabilities == before.l2_capabilities
                        },
                        IncrementalCompletion::Disconnected => {
                            &&& after.events.last() matches WifiEvent::Disconnected { reason }
                            &&& reason == 0
                            &&& signalled.kind == CompletionKind::Disconnect(Ok(()))
                            &&& after.l2_capabilities == before.l2_capabilities
                        },
                    }
                },
                Ok(IncrementalDriverEvent::Cancelled { sequence, .. }) => {
                    &&& after.events.len() > 0
                    &&& after.events.last() matches WifiEvent::Failed(error)
                    &&& error.class is Cancelled
                    &&& error.code == 0
                    &&& after.completion matches Some(signalled)
                    &&& signalled.sequence == sequence@
                    &&& after.l2_capabilities == before.l2_capabilities
                },
                Ok(IncrementalDriverEvent::Failed { sequence, error, .. }) => {
                    &&& after.events.len() > 0
                    &&& after.events.last() matches WifiEvent::Failed(announced)
                    &&& announced.class == error.class
                    &&& announced.code == error.code
                    &&& after.completion matches Some(signalled)
                    &&& signalled.sequence == sequence@
                    &&& after.l2_capabilities == before.l2_capabilities
                },
                Ok(_) => {
                    &&& after.events == before.events
                    &&& after.completion == before.completion
                    &&& after.l2_capabilities == before.l2_capabilities
                },
                Err(_) => {
                    &&& after.events == before.events
                    &&& after.l2_capabilities == before.l2_capabilities
                },
            }
        }),
{
    let taken = if before.cancellations.len() == 0 {
        before
    } else {
        RadioModel { cancellations: before.cancellations.drop_first(), ..before }
    };
    let scanned = RadioModel {
        scan_results: crate::incremental::buffer_after(taken.scan_results, call),
        ..taken
    };
    if before.cancellations.len() > 0 && before.cancellations[0] == 0 {
    } else if before.cancellations.len() > 0 && pre.driver.cancels_on_request(
        CommandSequence::of(before.cancellations[0]),
    ) {
    } else {
        let driven = choose|driven: Result<IncrementalDriverEvent, IncrementalDriverError>|
            {
                &&& #[trigger] crate::incremental::driver::drives(
                    pre.driver,
                    WaitSet::of(ready@ & !CANCEL_BIT),
                    deadline,
                    call,
                    post.driver,
                    driven,
                )
                &&& concludes(
                    pre,
                    scanned,
                    capacity,
                    driven,
                    capabilities,
                    post,
                    after,
                    result,
                )
            };
    }
}

/// A command is answered in its own kind. A success fits when it is the success of
/// that kind and no other, and it is completed and announced with the backend's own
/// outcome; a failure is completed with the backend's own error.
pub proof fn answer_is_of_the_commands_kind(
    command: CommandKind,
    completion: IncrementalCompletion,
    error: BackendError,
)
    ensures
        failure_of(CommandKindTag::of(command), error) == match command {
            CommandKind::Initialize => CompletionKind::Initialize(Err(error)),
            CommandKind::Scan(_) => CompletionKind::Scan(Err(error)),
            CommandKind::Connect(_) => CompletionKind::Connect(Err(error)),
            CommandKind::Disconnect => CompletionKind::Disconnect(Err(error)),
        },
        success_of(CommandKindTag::of(command), completion) is Some <==> {
            ||| command is Initialize && completion is Initialized
            ||| command is Scan && completion is Scan
            ||| command is Connect && completion is Connected
            ||| command is Disconnect && completion is Disconnected
        },
        success_of(CommandKindTag::of(command), completion) matches Some((done, announced)) ==> {
            &&& completion is Initialized ==> done == CompletionKind::Initialize(Ok(()))
                && announced is Initialized
            &&& completion matches IncrementalCompletion::Scan(outcome) ==> {
                &&& done == CompletionKind::Scan(Ok(outcome))
                &&& announced matches WifiEvent::ScanCompleted { count, truncated }
                &&& count == outcome.count
                &&& truncated == outcome.truncated
            }
            &&& completion matches IncrementalCompletion::Connected(info) ==> {
                &&& done == CompletionKind::Connect(Ok(info))
                &&& announced == WifiEvent::Connected(info)
            }
            &&& completion is Disconnected ==> {
                &&& done == CompletionKind::Disconnect(Ok(()))
                &&& announced matches WifiEvent::Disconnected { reason }
                &&& reason == 0
            }
        },
{
}

/// The runner waits for what its driver waits for, for a command exactly while it
/// could retain one, and always for a cancellation. What is already queued of these
/// is immediate work.
pub proof fn runner_waits_for_commands_and_cancellations(
    driver: DriverModel,
    deadline: Option<u64>,
    state: RadioModel,
)
    ensures
        ({
            let intent = facade_intent(driver, deadline, state);
            let own = driver.intent(deadline);
            &&& intent.deadline_us == own.deadline_us
            &&& intent.run_immediately <==> {
                ||| own.run_immediately
                ||| driver.commands.pending is None && state.commands.len() > 0
                ||| state.cancellations.len() > 0
            }
            &&& driver.commands.pending is None ==> intent.sources@ == (own.sources@ | 1) | 16
            &&& driver.commands.pending is Some ==> intent.sources@ == own.sources@ | 16
        }),
{
}

/// A wait tells the truth: it names only sources that are waited for, a command only
/// where one is queued, and of the others what the platform reported and nothing
/// else. The platform is asked for the remaining sources with the deadline, its
/// failure is passed on, and a source that it was not asked for is refused. An empty
/// set means immediate work, and nothing is left pending that is ready.
pub proof fn wait_names_only_what_is_ready<E>(
    intent: IncrementalWaitIntent,
    state: RadioModel,
    poll: Option<PlatformPoll<E>>,
    result: PollState<Result<WaitSet, IncrementalWaitError<E>>>,
)
    requires
        wait_polls(intent, state, poll, result),
    ensures
        intent.run_immediately ==> {
            &&& poll is None
            &&& result matches PollState::Ready(Ok(set))
            &&& state.cancellations.len() > 0 ==> set@ == 16
            &&& state.cancellations.len() == 0 ==> set@ == 0
        },
        !intent.run_immediately ==> match result {
            PollState::Ready(Ok(set)) => {
                &&& set@ != 0
                &&& set@ & !intent.sources@ == 0
                &&& set@ & 1 == 1 ==> state.commands.len() > 0 || (poll matches Some(made)
                    && made.result matches PollState::Ready(Ok(reported)) && reported@ & 1 == 1)
                &&& poll matches Some(made) ==> (made.result matches PollState::Ready(Ok(reported))
                    ==> set@ & !1u8 == reported@ & !1u8)
                &&& poll is None || (poll->Some_0.result is Pending) ==> set@ == 1
            },
            PollState::Pending => {
                &&& intent.sources@ & 1 == 1 ==> state.commands.len() == 0
                &&& poll matches Some(made) ==> (made.result is Pending || (
                made.result matches PollState::Ready(Ok(reported)) && reported@ == 0))
            },
            PollState::Ready(Err(IncrementalWaitError::Platform(error))) => {
                &&& poll matches Some(made)
                &&& made.result == PollState::Ready(Err::<WaitSet, E>(error))
            },
            PollState::Ready(
                Err(IncrementalWaitError::UnexpectedSources { subscribed, ready }),
            ) => {
                &&& poll matches Some(made)
                &&& made.result == PollState::Ready(Ok::<WaitSet, E>(ready))
                &&& subscribed == made.sources
                &&& ready@ & !subscribed@ != 0
            },
        },
        poll matches Some(made) ==> {
            &&& made.sources@ == intent.sources@ & 0xee
            &&& made.sources@ != 0
            &&& made.deadline_us == intent.deadline_us
        },
{
    let asked = intent.sources@;
    let share = (asked & !COMMAND_BIT) & !CANCEL_BIT;
    let reported = match poll {
        Some(made) => match made.result {
            PollState::Ready(Ok(set)) => set@,
            _ => 0,
        },
        None => 0,
    };
    assert(asked & 1 == 1 ==> 1u8 & !asked == 0) by (bit_vector);
    assert((asked & !1u8) & !16u8 == asked & 0xee) by (bit_vector);
    assert(0u8 & !asked == 0 && 0u8 & 1 == 0 && 1u8 & 1 == 1) by (bit_vector);
    assert((1u8 | reported) & !1u8 == reported & !1u8 && (0u8 | reported) == reported && (1u8
        | reported) != 0) by (bit_vector);
    assert(reported & !share == 0 ==> reported & !asked == 0) by (bit_vector)
        requires
            share == (asked & !1u8) & !16u8,
    ;
    assert(asked & 1 == 1 && reported & !asked == 0 ==> (1u8 | reported) & !asked == 0)
        by (bit_vector);
}

/// The counters tell what a step did: every step is counted, a failure under its
/// kind, and what the driver reported under the kind of the report. A step counts no
/// wait.
pub proof fn step_is_counted_as_what_it_did(
    pre: FacadeModel,
    before: RadioModel,
    capacity: nat,
    ready: WaitSet,
    deadline: Option<u64>,
    capabilities: Option<WifiL2Capabilities>,
    call: Option<IncrementalCall>,
    post: FacadeModel,
    after: RadioModel,
    result: Result<IncrementalDriverEvent, IncrementalRadioRunnerError>,
)
    requires
        pre.wf(),
        pre.counters.run_once_calls < u32::MAX,
        pre.counters.driver_errors < u32::MAX,
        pre.counters.protocol_errors < u32::MAX,
        pre.counters.operations_started < u32::MAX,
        pre.counters.cancellations_requested < u32::MAX,
        pre.counters.pending_polls < u32::MAX,
        pre.counters.budget_exhaustions < u32::MAX,
        pre.counters.operations_completed < u32::MAX,
        pre.counters.operations_cancelled < u32::MAX,
        pre.counters.operations_failed < u32::MAX,
        runs_once(
            pre,
            before,
            capacity,
            ready,
            deadline,
            capabilities,
            call,
            post,
            after,
            result,
        ),
    ensures
        ({
            let was = pre.counters;
            let now = post.counters;
            &&& now.run_once_calls - was.run_once_calls == 1
            &&& now.driver_errors - was.driver_errors == if result matches Err(error)
                && error is Driver {
                1int
            } else {
                0int
            }
            &&& now.protocol_errors - was.protocol_errors == if result matches Err(error)
                && !(error is Driver) {
                1int
            } else {
                0int
            }
            &&& now.operations_started - was.operations_started == if result matches Ok(event)
                && event is Started {
                1int
            } else {
                0int
            }
            &&& now.cancellations_requested - was.cancellations_requested
                == if result matches Ok(event) && event is CancelRequested {
                1int
            } else {
                0int
            }
            &&& now.pending_polls - was.pending_polls == if result matches Ok(event)
                && event is Pending {
                1int
            } else {
                0int
            }
            &&& now.budget_exhaustions - was.budget_exhaustions == if result matches Ok(event)
                && event is BudgetExhausted {
                1int
            } else {
                0int
            }
            &&& result matches Ok(event) ==> {
                &&& now.operations_completed - was.operations_completed == if event is Completed {
                    1int
                } else {
                    0int
                }
                &&& now.operations_cancelled - was.operations_cancelled == if event is Cancelled {
                    1int
                } else {
                    0int
                }
                &&& now.operations_failed - was.operations_failed == if event is Failed {
                    1int
                } else {
                    0int
                }
            }
            &&& now.wait_ready_calls == was.wait_ready_calls
            &&& now.wait_ready_completions == was.wait_ready_completions
            &&& now.wait_ready_errors == was.wait_ready_errors
        }),
{
    let entered = pre.entered(ready);
    if pre.driver.commands.pending is Some || before.commands.len() == 0 {
        lemma_serving_counts(
            entered,
            before,
            capacity,
            ready,
            deadline,
            capabilities,
            call,
            post,
            after,
            result,
        );
    } else if before.commands[0].sequence != 0 {
        lemma_serving_counts(
            entered.accepting(before.commands[0]),
            RadioModel { commands: before.commands.drop_first(), ..before },
            capacity,
            ready,
            deadline,
            capabilities,
            call,
            post,
            after,
            result,
        );
    }
}

proof fn lemma_serving_counts(
    pre: FacadeModel,
    before: RadioModel,
    capacity: nat,
    ready: WaitSet,
    deadline: Option<u64>,
    capabilities: Option<WifiL2Capabilities>,
    call: Option<IncrementalCall>,
    post: FacadeModel,
    after: RadioModel,
    result: Result<IncrementalDriverEvent, IncrementalRadioRunnerError>,
)
    requires
        pre.counters.driver_errors < u32::MAX,
        pre.counters.protocol_errors < u32::MAX,
        pre.counters.operations_started < u32::MAX,
        pre.counters.cancellations_requested < u32::MAX,
        pre.counters.pending_polls < u32::MAX,
        pre.counters.budget_exhaustions < u32::MAX,
        pre.counters.operations_completed < u32::MAX,
        pre.counters.operations_cancelled < u32::MAX,
        pre.counters.operations_failed < u32::MAX,
        serves_cancellation(
            pre,
            before,
            capacity,
            ready,
            deadline,
            capabilities,
            call,
            post,
            after,
            result,
        ),
    ensures
        ({
            let was = pre.counters;
            let now = post.counters;
            &&& now.run_once_calls == was.run_once_calls
            &&& now.driver_errors - was.driver_errors == if result matches Err(error)
                && error is Driver {
                1int
            } else {
                0int
            }
            &&& now.protocol_errors - was.protocol_errors == if result matches Err(error)
                && !(error is Driver) {
                1int
            } else {
                0int
            }
            &&& now.operations_started - was.operations_started == if result matches Ok(event)
                && event is Started {
                1int
            } else {
                0int
            }
            &&& now.cancellations_requested - was.cancellations_requested
                == if result matches Ok(event) && event is CancelRequested {
                1int
            } else {
                0int
            }
            &&& now.pending_polls - was.pending_polls == if result matches Ok(event)
                && event is Pending {
                1int
            } else {
                0int
            }
            &&& now.budget_exhaustions - was.budget_exhaustions == if result matches Ok(event)
                && event is BudgetExhausted {
                1int
            } else {
                0int
            }
            &&& result matches Ok(event) ==> {
                &&& now.operations_completed - was.operations_completed == if event is Completed {
                    1int
                } else {
                    0int
                }
                &&& now.operations_cancelled - was.operations_cancelled == if event is Cancelled {
                    1int
                } else {
                    0int
                }
                &&& now.operations_failed - was.operations_failed == if event is Failed {
                    1int
                } else {
                    0int
                }
            }
            &&& now.wait_ready_calls == was.wait_ready_calls
            &&& now.wait_ready_completions == was.wait_ready_completions
            &&& now.wait_ready_errors == was.wait_ready_errors
        }),
{
    let taken = if before.cancellations.len() == 0 {
        before
    } else {
        RadioModel { cancellations: before.cancellations.drop_first(), ..before }
    };
    let scanned = RadioModel {
        scan_results: crate::incremental::buffer_after(taken.scan_results, call),
        ..taken
    };
    if before.cancellations.len() > 0 && before.cancellations[0] == 0 {
    } else if before.cancellations.len() > 0 && pre.driver.cancels_on_request(
        CommandSequence::of(before.cancellations[0]),
    ) {
    } else {
        let driven = choose|driven: Result<IncrementalDriverEvent, IncrementalDriverError>|
            {
                &&& #[trigger] crate::incremental::driver::drives(
                    pre.driver,
                    WaitSet::of(ready@ & !CANCEL_BIT),
                    deadline,
                    call,
                    post.driver,
                    driven,
                )
                &&& concludes(
                    pre,
                    scanned,
                    capacity,
                    driven,
                    capabilities,
                    post,
                    after,
                    result,
                )
            };
    }
}

/// A wait is counted when it is first polled and when it ends: with a ready set, of
/// which an empty one is immediate work, or with a failure. A pending poll that is
/// not the first counts nothing.
pub proof fn wait_is_counted_once<E>(
    counters: IncrementalRunnerDiagnostics,
    first: bool,
    result: PollState<Result<WaitSet, IncrementalWaitError<E>>>,
)
    requires
        counters.wait_ready_calls < u32::MAX,
        counters.wait_ready_completions < u32::MAX,
        counters.immediate_ready_completions < u32::MAX,
        counters.wait_ready_errors < u32::MAX,
    ensures
        ({
            let now = wait_counted(counters, first, result);
            &&& now.wait_ready_calls - counters.wait_ready_calls == if first {
                1int
            } else {
                0int
            }
            &&& now.wait_ready_completions - counters.wait_ready_completions
                == if result matches PollState::Ready(ended) && ended is Ok {
                1int
            } else {
                0int
            }
            &&& now.immediate_ready_completions - counters.immediate_ready_completions
                == if result matches PollState::Ready(Ok(set)) && set@ == 0 {
                1int
            } else {
                0int
            }
            &&& now.wait_ready_errors - counters.wait_ready_errors
                == if result matches PollState::Ready(ended) && ended is Err {
                1int
            } else {
                0int
            }
            &&& result is Pending && !first ==> now == counters
            &&& now.run_once_calls == counters.run_once_calls
            &&& now.driver_errors == counters.driver_errors
            &&& now.protocol_errors == counters.protocol_errors
            &&& now.operations_started == counters.operations_started
        }),
{
}

/// A command that finds the runner free reaches the backend in the same step, as the
/// request that it stands for and under the identity that the slot hands out next.
pub proof fn command_reaches_a_free_backend<B: IncrementalWifiBackend>(
    backend: B,
    pre: FacadeModel,
    before: RadioModel,
    capacity: nat,
    ready: WaitSet,
    backend_after: B,
    post: FacadeModel,
    after: RadioModel,
    result: Result<IncrementalDriverEvent, IncrementalRadioRunnerError>,
)
    requires
        pre.wf(),
        pre.driver.commands.active is None,
        pre.driver.commands.pending is None,
        before.commands.len() > 0,
        before.commands[0].sequence != 0,
        before.cancellations.len() == 0,
        runner_steps(
            backend,
            pre,
            before,
            capacity,
            ready,
            backend_after,
            post,
            after,
            result,
        ),
    ensures
        exists|
            id: crate::incremental::OperationId,
            request: IncrementalRequest,
            answer: Result<(), BackendError>,
        |
            {
                &&& #[trigger] B::starts(backend, id, request, backend_after, answer)
                &&& match before.commands[0].kind {
                    CommandKind::Initialize => request == IncrementalRequest::Initialize(
                        pre.config,
                    ),
                    CommandKind::Scan(asked) => request == IncrementalRequest::Scan(asked),
                    CommandKind::Connect(asked) => request == IncrementalRequest::Connect(asked),
                    CommandKind::Disconnect => request == IncrementalRequest::Disconnect(
                        pre.config,
                    ),
                }
                &&& answer is Ok ==> result == Ok::<_, IncrementalRadioRunnerError>(
                    IncrementalDriverEvent::Started {
                        sequence: CommandSequence::of(before.commands[0].sequence),
                        operation: id,
                    },
                )
                &&& answer matches Err(error) ==> {
                    &&& result matches Ok(IncrementalDriverEvent::Failed { sequence, error: told, .. })
                    &&& sequence@ == before.commands[0].sequence
                    &&& told == error
                }
                &&& id@.1 != pre.driver.runner.tracker.generation
            },
{
    let (call, deadline, capabilities) = choose|
        call: Option<IncrementalCall>,
        deadline: Option<u64>,
        capabilities: Option<WifiL2Capabilities>,
    |
        {
            &&& #[trigger] runs_once(
                pre,
                before,
                capacity,
                ready,
                deadline,
                capabilities,
                call,
                post,
                after,
                result,
            )
            &&& answers_fit(
                backend,
                pre.driver,
                before.scan_results,
                deadline,
                capabilities,
                call,
                backend_after,
                result,
            )
        };
    let command = before.commands[0];
    let sequence = CommandSequence::of(command.sequence);
    let entered = pre.entered(ready);
    let accepted = entered.accepting(command);
    lemma_ledger(pre.ledger, (sequence, CommandKindTag::of(command.kind)));
    lemma_room(pre);
    lemma_submitted(entered.driver, accepted.driver, sequence, request_for(command.kind, pre.config));
    let received = RadioModel { commands: before.commands.drop_first(), ..before };
    let driven = choose|driven: Result<IncrementalDriverEvent, IncrementalDriverError>|
        {
            &&& #[trigger] crate::incremental::driver::drives(
                accepted.driver,
                WaitSet::of(ready@ & !CANCEL_BIT),
                deadline,
                call,
                post.driver,
                driven,
            )
            &&& concludes(
                accepted,
                RadioModel {
                    scan_results: crate::incremental::buffer_after(received.scan_results, call),
                    ..received
                },
                capacity,
                driven,
                capabilities,
                post,
                after,
                result,
            )
        };
    crate::incremental::driver::driving_conserves_commands(
        accepted.driver,
        WaitSet::of(ready@ & !CANCEL_BIT),
        deadline,
        call,
        post.driver,
        driven,
    );
    if let Ok(event) = driven {
        lemma_settled(accepted.ledger, accepted.driver, post.driver, event);
    }
    if let Some(IncrementalCall::Start { operation, request, result: answer }) = call {
        assert(B::starts(backend, operation, request, backend_after, answer));
    }
}

/// A runner works with what the radio was claimed and split with: its configuration
/// and its budget are the ones given, no step changes them, and an ended command is
/// announced with the backend's own outcome.
pub proof fn runner_keeps_its_configuration_and_budget<
    B: IncrementalWifiBackend,
    D,
    const EVENTS: usize,
>()
    ensures
        forall|
            config: crate::wifi::RadioConfig,
            resources: crate::wifi::RadioResources<B, D>,
            state: &mut RadioState<EVENTS>,
            controller: RadioController<B, D, EVENTS>,
            budget: WorkBudget,
            parts: IncrementalRadioParts<B, D, EVENTS>,
        |
            #[trigger] call_ensures(
                crate::radio::init::<B, D, EVENTS>,
                (config, resources, state),
                Ok(controller),
            ) && #[trigger] call_ensures(
                RadioController::<B, D, EVENTS>::split_incremental,
                (controller, budget),
                parts,
            ) ==> {
                &&& parts.runner@.config == config.wifi
                &&& parts.runner@.driver.budget == budget
                &&& parts.runner@.driver.commands.pending is None
                &&& parts.runner@.driver.commands.active is None
                &&& parts.runner.backend_state() == resources.backend
                &&& parts.wifi.device@ == resources.device
            },
        forall|
            slot: &mut IncrementalRadioRunner<B, EVENTS>,
            state: &mut RadioState<EVENTS>,
            ready: WaitSet,
            result: Result<IncrementalDriverEvent, IncrementalRadioRunnerError>,
        | #[trigger]
            call_ensures(
                IncrementalRadioRunner::<B, EVENTS>::run_once,
                (slot, state, ready),
                result,
            ) && slot.wf() && state.wf() ==> {
                &&& final(slot)@.config == slot@.config
                &&& final(slot)@.driver.budget == slot@.driver.budget
                &&& result matches Ok(
                    IncrementalDriverEvent::Completed {
                        sequence,
                        completion: IncrementalCompletion::Scan(outcome),
                    },
                ) ==> {
                    &&& final(state)@.events.last() matches WifiEvent::ScanCompleted {
                        count,
                        truncated,
                    }
                    &&& count == outcome.count
                    &&& truncated == outcome.truncated
                }
            },
{
    assert forall|
        slot: &mut IncrementalRadioRunner<B, EVENTS>,
        state: &mut RadioState<EVENTS>,
        ready: WaitSet,
        result: Result<IncrementalDriverEvent, IncrementalRadioRunnerError>,
    | #[trigger]
        call_ensures(
            IncrementalRadioRunner::<B, EVENTS>::run_once,
            (slot, state, ready),
            result,
        ) && slot.wf() && state.wf() implies {
        &&& final(slot)@.config == slot@.config
        &&& final(slot)@.driver.budget == slot@.driver.budget
        &&& result matches Ok(
            IncrementalDriverEvent::Completed {
                sequence,
                completion: IncrementalCompletion::Scan(outcome),
            },
        ) ==> {
            &&& final(state)@.events.last() matches WifiEvent::ScanCompleted { count, truncated }
            &&& count == outcome.count
            &&& truncated == outcome.truncated
        }
    } by {
        let (call, deadline, capabilities) = choose|
            call: Option<IncrementalCall>,
            deadline: Option<u64>,
            capabilities: Option<WifiL2Capabilities>,
        | #[trigger]
            runs_once(
                slot@,
                state@,
                EVENTS as nat,
                ready,
                deadline,
                capabilities,
                call,
                final(slot)@,
                final(state)@,
                result,
            );
        step_takes_in_order_and_polls_within_the_grant(
            slot@,
            state@,
            EVENTS as nat,
            ready,
            deadline,
            capabilities,
            call,
            final(slot)@,
            final(state)@,
            result,
        );
        start_carries_what_was_commanded(
            slot@,
            state@,
            EVENTS as nat,
            ready,
            deadline,
            capabilities,
            call,
            final(slot)@,
            final(state)@,
            result,
        );
        end_of_a_command_is_announced(
            slot@,
            state@,
            EVENTS as nat,
            ready,
            deadline,
            capabilities,
            call,
            final(slot)@,
            final(state)@,
            result,
        );
    }
}

/// A success is delivered only in the kind that was asked for: the completion of an
/// operation that was not cancelled ends its command where the kinds agree, and is
/// otherwise refused and signalled as a protocol failure under the same sequence.
pub proof fn success_must_fit_its_command(
    operation: crate::incremental::OperationId,
    reason: crate::incremental::WakeReason,
    budget: WorkBudget,
    output: Seq<ScanResult>,
    report: crate::incremental::WorkReport,
    completion: IncrementalCompletion,
    kind: CommandKindTag,
    pre: FacadeModel,
    before: RadioModel,
    capacity: nat,
    ready: WaitSet,
    deadline: Option<u64>,
    capabilities: Option<WifiL2Capabilities>,
    call: Option<IncrementalCall>,
    post: FacadeModel,
    after: RadioModel,
    result: Result<IncrementalDriverEvent, IncrementalRadioRunnerError>,
)
    requires
        pre.wf(),
        before.commands.len() == 0,
        before.cancellations.len() == 0,
        call == Some(
            IncrementalCall::Poll { operation, reason, budget, output, result: Ok(report) },
        ),
        report@.operation == operation,
        report@.disposition == crate::incremental::PollDisposition::Complete(completion),
        pre.driver.commands.active matches Some(active) && !active.cancel_requested
            && pre.ledger.kind(active.sequence) == Some(kind),
        runs_once(
            pre,
            before,
            capacity,
            ready,
            deadline,
            capabilities,
            call,
            post,
            after,
            result,
        ),
    ensures
        ({
            let sequence = pre.driver.commands.active->Some_0.sequence;
            let fits = match kind {
                CommandKindTag::Initialize => completion is Initialized,
                CommandKindTag::Scan => completion is Scan,
                CommandKindTag::Connect => completion is Connected,
                CommandKindTag::Disconnect => completion is Disconnected,
            };
            &&& fits ==> result == Ok::<_, IncrementalRadioRunnerError>(
                IncrementalDriverEvent::Completed { sequence, completion },
            )
            &&& !fits ==> {
                &&& result is Err
                &&& result->Err_0 is CompletionMismatch
                &&& after.completion matches Some(signalled)
                &&& signalled.sequence == sequence@
                &&& signalled.kind is Protocol
                &&& after.events == before.events
            }
            &&& post.driver.commands.active is None
        }),
{
    let driven = choose|driven: Result<IncrementalDriverEvent, IncrementalDriverError>|
        {
            &&& #[trigger] crate::incremental::driver::drives(
                pre.entered(ready).driver,
                WaitSet::of(ready@ & !CANCEL_BIT),
                deadline,
                call,
                post.driver,
                driven,
            )
            &&& concludes(
                pre.entered(ready),
                RadioModel { scan_results: output, ..before },
                capacity,
                driven,
                capabilities,
                post,
                after,
                result,
            )
        };
    crate::incremental::driver::poll_is_reported_as_answered(
        pre.driver,
        WaitSet::of(ready@ & !CANCEL_BIT),
        deadline,
        operation,
        reason,
        budget,
        output,
        Ok(report),
        post.driver,
        driven,
    );
}

/// A queued cancellation of the active command reaches the backend in the next step,
/// under the operation of that command, unless it was cancelled before.
pub proof fn queued_cancellation_reaches_the_backend(
    pre: FacadeModel,
    before: RadioModel,
    capacity: nat,
    ready: WaitSet,
    deadline: Option<u64>,
    capabilities: Option<WifiL2Capabilities>,
    call: Option<IncrementalCall>,
    post: FacadeModel,
    after: RadioModel,
    result: Result<IncrementalDriverEvent, IncrementalRadioRunnerError>,
)
    requires
        pre.wf(),
        before.commands.len() == 0 || pre.driver.commands.pending is Some,
        before.cancellations.len() > 0,
        pre.driver.commands.active matches Some(active) && active.sequence@
            == before.cancellations[0] && active.sequence == CommandSequence::of(
            before.cancellations[0],
        ) && active.sequence@ != 0,
        runs_once(
            pre,
            before,
            capacity,
            ready,
            deadline,
            capabilities,
            call,
            post,
            after,
            result,
        ),
    ensures
        ({
            let active = pre.driver.commands.active->Some_0;
            &&& !active.cancel_requested ==> (call matches Some(
                IncrementalCall::Cancel { operation, .. },
            ) && operation == active.operation)
            &&& active.cancel_requested ==> !(call matches Some(made) && made is Cancel)
            &&& after.cancellations == before.cancellations.drop_first()
        }),
{
    step_takes_in_order_and_polls_within_the_grant(
        pre,
        before,
        capacity,
        ready,
        deadline,
        capabilities,
        call,
        post,
        after,
        result,
    );
}

/// Link-layer properties are the backend's: what an initialization publishes is what
/// the backend, as the initialization left it, answered.
pub proof fn capabilities_are_the_backends<B: IncrementalWifiBackend>(
    backend: B,
    pre: FacadeModel,
    before: RadioModel,
    capacity: nat,
    ready: WaitSet,
    backend_after: B,
    post: FacadeModel,
    after: RadioModel,
    result: Result<IncrementalDriverEvent, IncrementalRadioRunnerError>,
)
    requires
        pre.wf(),
        0 < capacity,
        before.events.len() <= capacity,
        runner_steps(
            backend,
            pre,
            before,
            capacity,
            ready,
            backend_after,
            post,
            after,
            result,
        ),
    ensures
        after.l2_capabilities != before.l2_capabilities ==> {
            &&& before.l2_capabilities is None
            &&& backend_after.answers_capabilities(after.l2_capabilities)
            &&& result matches Ok(IncrementalDriverEvent::Completed { completion, .. })
                && completion is Initialized
        },
{
    let (call, deadline, capabilities) = choose|
        call: Option<IncrementalCall>,
        deadline: Option<u64>,
        capabilities: Option<WifiL2Capabilities>,
    |
        {
            &&& #[trigger] runs_once(
                pre,
                before,
                capacity,
                ready,
                deadline,
                capabilities,
                call,
                post,
                after,
                result,
            )
            &&& answers_fit(
                backend,
                pre.driver,
                before.scan_results,
                deadline,
                capabilities,
                call,
                backend_after,
                result,
            )
        };
    end_of_a_command_is_announced(
        pre,
        before,
        capacity,
        ready,
        deadline,
        capabilities,
        call,
        post,
        after,
        result,
    );
}

/// The platform is asked only for its own sources, never for a command or a
/// cancellation, and is not touched otherwise.
pub proof fn platform_is_asked_for_its_own_sources<
    B: IncrementalWifiBackend,
    P: IncrementalWaitPlatform,
>(
    backend: B,
    driver: DriverModel,
    state: RadioModel,
    before: P,
    after: P,
    result: PollState<Result<WaitSet, IncrementalWaitError<P::Error>>>,
)
    requires
        wait_steps(backend, driver, state, before, after, result),
    ensures
        after != before ==> exists|
            sources: WaitSet,
            deadline_us: Option<u64>,
            answer: PollState<Result<WaitSet, P::Error>>,
        |
            #[trigger] P::polled(before, sources, deadline_us, after, answer) && sources@ & 17 == 0
                && sources@ != 0,
        state.cancellations.len() > 0 ==> after == before && result == PollState::Ready(
            Ok::<WaitSet, IncrementalWaitError<P::Error>>(WaitSet::of(16)),
        ),
        driver.commands.pending is None && state.commands.len() > 0 ==> after == before
            && result is Ready,
{
    let (intent, poll) = choose|
        intent: IncrementalWaitIntent,
        poll: Option<PlatformPoll<P::Error>>,
    |
        {
            &&& #[trigger] wait_polls(intent, state, poll, result)
            &&& facade_intent_answered(backend, driver, state, intent)
            &&& crate::incremental::wait::platform_steps(before, poll, after)
        };
    let asked = intent.sources@;
    assert(((asked & !1u8) & !16u8) & 17 == 0) by (bit_vector);
    if let Some(made) = poll {
        assert(P::polled(before, made.sources, made.deadline_us, after, made.result));
    }
}

/// A pending wait is never forgotten: it is woken by the next cancellation, and by
/// the next command while one can be retained. A wait leaves the shared state and the
/// backend alone.
pub proof fn pending_wait_is_woken<
    B: IncrementalWifiBackend,
    P: IncrementalWaitPlatform,
    const EVENTS: usize,
>()
    ensures
        forall|
            slot: &mut IncrementalRadioRunner<B, EVENTS>,
            wait: &mut ReadyWait,
            state: &mut RadioState<EVENTS>,
            platform: &mut P,
            cx: &mut Context<'_>,
            result: PollState<Result<WaitSet, IncrementalWaitError<P::Error>>>,
        | #[trigger]
            call_ensures(
                IncrementalRadioRunner::<B, EVENTS>::wait_ready::<P>,
                (slot, wait, state, platform, cx),
                result,
            ) ==> {
                &&& result is Pending ==> final(state).waiters().cancellation
                &&& result is Pending && slot@.driver.commands.pending is None ==> final(
                state).waiters().command
                &&& final(state).waiters().room == state.waiters().room
                &&& final(state).waiters().completion == state.waiters().completion
                &&& final(state).waiters().event == state.waiters().event
                &&& final(state)@ == state@
                &&& final(slot)@.driver == slot@.driver
                &&& final(slot)@.ledger == slot@.ledger
                &&& final(slot)@.config == slot@.config
                &&& final(slot).backend_state() == slot.backend_state()
            },
{
}

/// Whoever waits for what a step did is woken by it: for room when a command was
/// taken, for a completion when one was signalled, for an event when one was
/// published.
pub proof fn step_wakes_who_waits_for_it<B: IncrementalWifiBackend, const EVENTS: usize>()
    ensures
        forall|
            slot: &mut IncrementalRadioRunner<B, EVENTS>,
            state: &mut RadioState<EVENTS>,
            ready: WaitSet,
            result: Result<IncrementalDriverEvent, IncrementalRadioRunnerError>,
        | #[trigger]
            call_ensures(
                IncrementalRadioRunner::<B, EVENTS>::run_once,
                (slot, state, ready),
                result,
            ) ==> {
                let left = final(state).waiters();
                &&& final(state)@.commands.len() < state@.commands.len() ==> !left.room
                &&& final(state)@.completion != state@.completion ==> !left.completion
                &&& final(state)@.events != state@.events ==> !left.event
                &&& left.command ==> state.waiters().command
                &&& left.cancellation ==> state.waiters().cancellation
            },
{
}

/// Accepting a command retains it and records it, and leaves the active command, the
/// operation, and the other record as they are.
pub proof fn acceptance_touches_only_the_pending_slot(pre: FacadeModel, command: Command)
    requires
        pre.wf(),
        pre.driver.commands.pending is None,
        command.sequence != 0,
    ensures
        ({
            let post = pre.accepting(command);
            &&& post.wf()
            &&& post.driver.commands.active == pre.driver.commands.active
            &&& post.driver.commands.starting == pre.driver.commands.starting
            &&& post.driver.runner == pre.driver.runner
            &&& post.driver.poll_due == pre.driver.poll_due
            &&& post.driver.budget == pre.driver.budget
            &&& post.config == pre.config
            &&& post.counters == pre.counters
            &&& post.driver.commands.pending matches Some((sequence, _))
            &&& sequence == CommandSequence::of(command.sequence)
            &&& !pre.ledger.sequences().contains(sequence) ==> post.ledger.kind(sequence) == Some(
                match command.kind {
                    CommandKind::Initialize => CommandKindTag::Initialize,
                    CommandKind::Scan(_) => CommandKindTag::Scan,
                    CommandKind::Connect(_) => CommandKindTag::Connect,
                    CommandKind::Disconnect => CommandKindTag::Disconnect,
                },
            )
            &&& forall|other: CommandSequence|
                other != sequence ==> #[trigger] post.ledger.kind(other) == pre.ledger.kind(other)
        }),
{
    broadcast use vstd::multiset::group_multiset_axioms;

    lemma_accepting_keeps_wf(pre, command);
    lemma_room(pre);
    let sequence = CommandSequence::of(command.sequence);
    lemma_ledger(pre.ledger, (sequence, CommandKindTag::of(command.kind)));
}

} // verus!
