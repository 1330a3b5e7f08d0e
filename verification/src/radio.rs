//! Radio ownership, the Wi-Fi control plane, the blocking runner, and the L2
//! device handle.
//!
//! The handles hold no shared state of their own. Every operation that touches
//! the state which the control plane, the data plane, and the runner share takes
//! it as an argument.

use core::task::Context;

use vstd::prelude::*;

use crate::incremental::PollState;
use crate::state::{RadioModel, RadioState, Waiters};
use crate::transport::{Command, CommandKind, Completion, CompletionKind, CANCELLATION_CAPACITY};
use crate::wifi::{
    BackendError, ConnectionInfo, EventDiagnostics, RadioConfig, RadioResources, ScanConfig,
    ScanOutcome, ScanResult, StationConfig, WifiBackend, WifiCall, WifiConfig, WifiEvent,
    WifiL2Capabilities, MAX_SCAN_RESULTS,
};
use crate::Error;

verus! {

/// Exclusive unsplit radio ownership.
pub struct RadioController<B, D, const EVENTS: usize> {
    config: RadioConfig,
    resources: RadioResources<B, D>,
}

/// Claim one radio instance without invoking its backend.
pub fn init<B, D, const EVENTS: usize>(
    config: RadioConfig,
    resources: RadioResources<B, D>,
    state: &mut RadioState<EVENTS>,
) -> (result: Result<RadioController<B, D, EVENTS>, Error>)
    requires
        old(state).wf(),
    ensures
        final(state).wf(),
        final(state)@ == (RadioModel { claimed: true, ..old(state)@ }),
        final(state).waiters() == old(state).waiters(),
        match result {
            Ok(controller) => {
                &&& !old(state)@.claimed
                &&& controller.configuration() == config
                &&& controller.parts() == resources
            },
            Err(error) => old(state)@.claimed && error == Error::AlreadyInitialized,
        },
{
    if !state.claim() {
        return Err(Error::AlreadyInitialized);
    }
    Ok(RadioController { config, resources })
}

impl<B, D, const EVENTS: usize> RadioController<B, D, EVENTS> {
    /// Radio-wide configuration.
    pub closed spec fn configuration(&self) -> RadioConfig {
        self.config
    }

    /// Backend and device.
    pub closed spec fn parts(&self) -> RadioResources<B, D> {
        self.resources
    }

    /// Split exclusive ownership into Wi-Fi control/data planes and the runner.
    pub fn split(self) -> (parts: RadioParts<B, D, EVENTS>) where B: WifiBackend
        ensures
            parts.wifi.controller@ == 0,
            parts.wifi.device@ == self.parts().device,
            parts.runner.backend_state() == self.parts().backend,
            parts.runner.configuration() == self.configuration().wifi,
            parts.runner.last_error() is None,
    {
        let (wifi, backend, config) = self.split_components();
        RadioParts { wifi, runner: RadioRunner { backend, config, last_poll_error: None } }
    }

    pub(crate) fn split_components(self) -> (components: (WifiParts<D, EVENTS>, B, WifiConfig))
        ensures
            components.0.controller@ == 0,
            components.0.device@ == self.parts().device,
            components.1 == self.parts().backend,
            components.2 == self.configuration().wifi,
    {
        (
            WifiParts {
                controller: WifiController { next_sequence: 0 },
                device: WifiDevice { inner: self.resources.device },
            },
            self.resources.backend,
            self.config.wifi,
        )
    }
}

/// Enabled protocol handles plus the mandatory runner.
pub struct RadioParts<B, D, const EVENTS: usize> {
    /// Wi-Fi control and L2 data planes.
    pub wifi: WifiParts<D, EVENTS>,
    /// Long-lived backend runner.
    pub runner: RadioRunner<B, EVENTS>,
}

/// Separate Wi-Fi control and L2 data-plane ownership.
pub struct WifiParts<D, const EVENTS: usize> {
    /// Control plane.
    pub controller: WifiController<EVENTS>,
    /// L2 data plane.
    pub device: WifiDevice<D>,
}

/// The sequence that follows `sequence`: counting up, skipping zero when the
/// counter wraps.
pub open spec fn next_sequence(sequence: u32) -> u32 {
    if sequence == u32::MAX {
        1
    } else {
        (sequence + 1) as u32
    }
}

/// A sequence is never zero and never the one before it, so a completion of the
/// previous command cannot pass for the current one.
pub proof fn sequence_moves_on(sequence: u32)
    ensures
        next_sequence(sequence) != 0,
        next_sequence(sequence) != sequence,
{
}

/// Wi-Fi control plane. This handle is deliberately not cloneable.
pub struct WifiController<const EVENTS: usize> {
    next_sequence: u32,
}

impl<const EVENTS: usize> WifiController<EVENTS> {
    /// The sequence of the last command, zero before the first.
    pub closed spec fn view(&self) -> u32 {
        self.next_sequence
    }

    /// Ask the runner to initialize the backend.
    pub fn initialize(&mut self) -> (operation: ControlOperation)
        ensures
            final(self)@ == next_sequence(old(self)@),
            operation@ == (OperationModel {
                sequence: final(self)@,
                unsent: Some(CommandKind::Initialize),
                over: false,
            }),
    {
        ControlOperation::new(self.allocate_sequence(), CommandKind::Initialize)
    }

    /// Ask the runner to scan.
    pub fn scan(&mut self, config: ScanConfig) -> (operation: ControlOperation)
        ensures
            final(self)@ == next_sequence(old(self)@),
            operation@ == (OperationModel {
                sequence: final(self)@,
                unsent: Some(CommandKind::Scan(config)),
                over: false,
            }),
    {
        ControlOperation::new(self.allocate_sequence(), CommandKind::Scan(config))
    }

    /// Ask the runner to associate and authorize a station connection.
    pub fn connect(&mut self, config: StationConfig) -> (operation: ControlOperation)
        ensures
            final(self)@ == next_sequence(old(self)@),
            operation@ == (OperationModel {
                sequence: final(self)@,
                unsent: Some(CommandKind::Connect(config)),
                over: false,
            }),
    {
        ControlOperation::new(self.allocate_sequence(), CommandKind::Connect(config))
    }

    /// Ask the runner to disconnect the current station link.
    pub fn disconnect(&mut self) -> (operation: ControlOperation)
        ensures
            final(self)@ == next_sequence(old(self)@),
            operation@ == (OperationModel {
                sequence: final(self)@,
                unsent: Some(CommandKind::Disconnect),
                over: false,
            }),
    {
        ControlOperation::new(self.allocate_sequence(), CommandKind::Disconnect)
    }

    /// Take the next bounded event produced by the runner, or wait for it.
    pub fn next_event(&mut self, state: &mut RadioState<EVENTS>, cx: &mut Context<'_>) -> (event:
        PollState<WifiEvent>)
        requires
            old(state).wf(),
        ensures
            final(state).wf(),
            final(self)@ == old(self)@,
            match event {
                PollState::Ready(oldest) => {
                    &&& old(state)@.events.len() > 0
                    &&& oldest == old(state)@.events[0]
                    &&& final(state)@ == (RadioModel {
                        events: old(state)@.events.drop_first(),
                        ..old(state)@
                    })
                    &&& final(state).waiters() == old(state).waiters()
                },
                PollState::Pending => {
                    &&& old(state)@.events.len() == 0
                    &&& final(state)@ == old(state)@
                    &&& final(state).waiters() == (Waiters { event: true, ..old(state).waiters() })
                },
            },
    {
        state.events.poll_pop(cx)
    }

    /// Snapshot queue occupancy and overflow.
    pub fn event_diagnostics(&self, state: &RadioState<EVENTS>) -> (diagnostics: EventDiagnostics)
        ensures
            diagnostics.capacity == EVENTS,
            diagnostics.pending == state@.events.len(),
            diagnostics.dropped == state@.dropped_events,
    {
        EventDiagnostics {
            capacity: EVENTS,
            pending: state.events.len(),
            dropped: state.dropped_events,
        }
    }

    fn allocate_sequence(&mut self) -> (sequence: u32)
        ensures
            final(self)@ == next_sequence(old(self)@),
            sequence == final(self)@,
    {
        self.next_sequence = self.next_sequence.wrapping_add(1);
        if self.next_sequence == 0 {
            self.next_sequence = 1;
        }
        self.next_sequence
    }
}

/// Where a control operation stands.
pub struct OperationModel {
    /// Sequence of its command.
    pub sequence: u32,
    /// The command, until the channel accepts it.
    pub unsent: Option<CommandKind>,
    /// The operation has returned its result or was abandoned.
    pub over: bool,
}

/// What one poll of an operation does to the shared state, and what it returns.
///
/// An unsent command enters the command channel as soon as that has room. A
/// completion is taken out once the command is in; one of an earlier command is
/// dropped.
pub open spec fn operation_polls(
    pre: OperationModel,
    before: RadioModel,
    post: OperationModel,
    after: RadioModel,
    result: PollState<CompletionKind>,
) -> bool {
    match pre.unsent {
        Some(kind) => if before.commands.len() >= 1 {
            &&& result is Pending
            &&& post == pre
            &&& after == before
        } else {
            awaits_completion(
                OperationModel { unsent: None, ..pre },
                RadioModel {
                    commands: before.commands.push(Command { sequence: pre.sequence, kind }),
                    command_high_water: crate::state::larger(before.command_high_water, 1),
                    ..before
                },
                post,
                after,
                result,
            )
        },
        None => awaits_completion(pre, before, post, after, result),
    }
}

/// What one poll does once the command is in the channel.
pub open spec fn awaits_completion(
    pre: OperationModel,
    before: RadioModel,
    post: OperationModel,
    after: RadioModel,
    result: PollState<CompletionKind>,
) -> bool {
    &&& after == (RadioModel { completion: None, ..before })
    &&& match before.completion {
        Some(completion) if completion.sequence == pre.sequence => {
            &&& result == PollState::Ready(completion.kind)
            &&& post == (OperationModel { over: true, ..pre })
        },
        _ => {
            &&& result is Pending
            &&& post == pre
        },
    }
}

/// Who waits after one poll of an operation that returned `result`.
///
/// An operation that is still pending waits for what it needs next: room for its
/// command, or its completion. A command that entered the channel woke the
/// runner.
pub open spec fn waiters_after_poll(
    pre: OperationModel,
    before: RadioModel,
    waiting: Waiters,
    result: PollState<CompletionKind>,
) -> Waiters {
    if pre.unsent is Some && before.commands.len() >= 1 {
        Waiters { room: true, ..waiting }
    } else {
        Waiters {
            command: waiting.command && pre.unsent is None,
            completion: result is Pending,
            ..waiting
        }
    }
}

/// One control operation, from its command to its result.
pub struct ControlOperation {
    sequence: u32,
    unsent: Option<CommandKind>,
    over: bool,
}

impl ControlOperation {
    /// Where the operation stands.
    pub closed spec fn view(&self) -> OperationModel {
        OperationModel { sequence: self.sequence, unsent: self.unsent, over: self.over }
    }

    fn new(sequence: u32, kind: CommandKind) -> (operation: Self)
        ensures
            operation@ == (OperationModel { sequence, unsent: Some(kind), over: false }),
    {
        ControlOperation { sequence, unsent: Some(kind), over: false }
    }

    /// Sequence of the command.
    pub fn sequence(&self) -> (sequence: u32)
        ensures
            sequence == self@.sequence,
    {
        self.sequence
    }

    /// Whether the operation has returned its result or was abandoned.
    pub fn is_over(&self) -> (over: bool)
        ensures
            over == self@.over,
    {
        self.over
    }

    /// Send the command if it is not sent yet, then take its completion.
    ///
    /// An operation is not polled again once it is over.
    pub fn poll<const EVENTS: usize>(
        &mut self,
        state: &mut RadioState<EVENTS>,
        cx: &mut Context<'_>,
    ) -> (result: PollState<CompletionKind>)
        requires
            old(state).wf(),
            !old(self)@.over,
        ensures
            final(state).wf(),
            operation_polls(old(self)@, old(state)@, final(self)@, final(state)@, result),
            final(state).waiters() == waiters_after_poll(
                old(self)@,
                old(state)@,
                old(state).waiters(),
                result,
            ),
    {
        if let Some(kind) = self.unsent.take() {
            match state.commands.try_send(Command { sequence: self.sequence, kind }) {
                Ok(()) => {
                    state.record_command_accepted();
                },
                Err(refused) => {
                    self.unsent = Some(refused.kind);
                    let _ = state.commands.poll_ready_to_send(cx);
                    return PollState::Pending;
                },
            }
        }
        let ghost sent = *self;
        let ghost waiting = state@;
        let ghost waiters = state.waiters();
        loop
            invariant
                state.wf(),
                state.waiters() == (Waiters { completion: state.waiters().completion, ..waiters }),
                waiters == (Waiters {
                    command: old(state).waiters().command && old(self)@.unsent is None,
                    ..old(state).waiters()
                }),
                *self == sent,
                sent@.unsent is None,
                sent@.sequence == old(self)@.sequence,
                !sent@.over,
                state@ == (RadioModel { completion: state@.completion, ..waiting }),
                state@.completion == waiting.completion || {
                    &&& state@.completion is None
                    &&& waiting.completion matches Some(stale) && stale.sequence != sent@.sequence
                },
                old(self)@.unsent is None ==> sent@ == old(self)@ && waiting == old(state)@,
                old(self)@.unsent matches Some(kind) ==> {
                    &&& sent@ == (OperationModel { unsent: None, ..old(self)@ })
                    &&& old(state)@.commands.len() < 1
                    &&& waiting == (RadioModel {
                        commands: old(state)@.commands.push(
                            Command { sequence: old(self)@.sequence, kind },
                        ),
                        command_high_water: crate::state::larger(
                            old(state)@.command_high_water,
                            1,
                        ),
                        ..old(state)@
                    })
                },
            decreases (if state@.completion is Some { 1nat } else { 0nat }),
        {
            match state.completion.poll_wait(cx) {
                PollState::Pending => return PollState::Pending,
                PollState::Ready(completion) => {
                    if completion.sequence == self.sequence {
                        self.over = true;
                        return PollState::Ready(completion.kind);
                    }
                },
            }
        }
    }

    /// Give the operation up before its result came.
    ///
    /// A command that entered the channel is cancelled by its sequence. The
    /// request is dropped when the cancellation channel is full; the operation
    /// then runs to its own end and its completion is ignored. A command that was
    /// not sent is dropped.
    pub fn abandon<const EVENTS: usize>(&mut self, state: &mut RadioState<EVENTS>)
        requires
            old(state).wf(),
        ensures
            final(state).wf(),
            final(self)@ == (OperationModel { unsent: None, over: true, ..old(self)@ }),
            final(state)@ == if !old(self)@.over && old(self)@.unsent is None
                && old(state)@.cancellations.len() < CANCELLATION_CAPACITY {
                RadioModel {
                    cancellations: old(state)@.cancellations.push(old(self)@.sequence),
                    ..old(state)@
                }
            } else {
                old(state)@
            },
            final(state).waiters() == if final(state)@.cancellations == old(state)@.cancellations {
                old(state).waiters()
            } else {
                Waiters { cancellation: false, ..old(state).waiters() }
            },
    {
        if self.unsent.take().is_none() && !self.over {
            let _ = state.cancellations.try_send(self.sequence);
        }
        self.over = true;
    }
}

/// The failure that a backend result turns into.
pub open spec fn lifted<T>(result: Result<T, BackendError>) -> Result<T, Error> {
    match result {
        Ok(value) => Ok(value),
        Err(error) => Err(Error::Backend(error)),
    }
}

fn lift<T>(result: Result<T, BackendError>) -> (lifted_result: Result<T, Error>)
    ensures
        lifted_result == lifted(result),
{
    match result {
        Ok(value) => Ok(value),
        Err(error) => Err(Error::Backend(error)),
    }
}

impl CompletionKind {
    /// Result of an initialization; any other kind is a protocol failure.
    pub fn into_initialized(self) -> (result: Result<(), Error>)
        ensures
            result == match self {
                CompletionKind::Initialize(inner) => lifted(inner),
                _ => Err(Error::Protocol),
            },
    {
        match self {
            CompletionKind::Initialize(result) => lift(result),
            _ => Err(Error::Protocol),
        }
    }

    /// Backend outcome of a scan; any other kind is a protocol failure.
    pub fn into_scanned(self) -> (result: Result<ScanOutcome, Error>)
        ensures
            result == match self {
                CompletionKind::Scan(inner) => lifted(inner),
                _ => Err(Error::Protocol),
            },
    {
        match self {
            CompletionKind::Scan(result) => lift(result),
            _ => Err(Error::Protocol),
        }
    }

    /// Result of an association; any other kind is a protocol failure.
    pub fn into_connected(self) -> (result: Result<ConnectionInfo, Error>)
        ensures
            result == match self {
                CompletionKind::Connect(inner) => lifted(inner),
                _ => Err(Error::Protocol),
            },
    {
        match self {
            CompletionKind::Connect(result) => lift(result),
            _ => Err(Error::Protocol),
        }
    }

    /// Result of a disconnection; any other kind is a protocol failure.
    pub fn into_disconnected(self) -> (result: Result<(), Error>)
        ensures
            result == match self {
                CompletionKind::Disconnect(inner) => lifted(inner),
                _ => Err(Error::Protocol),
            },
    {
        match self {
            CompletionKind::Disconnect(result) => lift(result),
            _ => Err(Error::Protocol),
        }
    }
}

/// Entries that fit both the backend's count and the caller's buffer.
pub open spec fn copied(count: nat, room: nat) -> nat {
    if count < room {
        count
    } else {
        room
    }
}

/// Copy the results of a completed scan into a caller-provided buffer.
///
/// The entries to copy must lie within the retained results.
pub fn copy_scan_results<const EVENTS: usize>(
    state: &RadioState<EVENTS>,
    backend: ScanOutcome,
    output: &mut [ScanResult],
) -> (outcome: ScanOutcome)
    requires
        copied(backend.count as nat, old(output)@.len()) <= MAX_SCAN_RESULTS,
    ensures
        outcome.count == copied(backend.count as nat, old(output)@.len()),
        outcome.truncated == (backend.truncated || backend.count > old(output)@.len()),
        final(output)@.len() == old(output)@.len(),
        forall|i: int|
            0 <= i < outcome.count ==> #[trigger] final(output)@[i] == state@.scan_results[i],
        forall|i: int|
            outcome.count <= i < old(output)@.len() ==> #[trigger] final(output)@[i] == old(
                output,
            )@[i],
{
    let room: usize = output.len();
    let count: usize = if backend.count < room {
        backend.count
    } else {
        room
    };
    let mut i: usize = 0;
    while i < count
        invariant
            i <= count <= MAX_SCAN_RESULTS,
            count <= room,
            output@.len() == room,
            room == old(output)@.len(),
            state@.scan_results == state.scan_results@,
            state.scan_results@.len() == MAX_SCAN_RESULTS,
            forall|j: int| 0 <= j < i ==> #[trigger] output@[j] == state@.scan_results[j],
            forall|j: int| i <= j < room ==> #[trigger] output@[j] == old(output)@[j],
        decreases count - i,
    {
        output[i] = state.scan_results[i];
        i = i + 1;
    }
    ScanOutcome { count, truncated: backend.truncated || backend.count > room }
}

/// Long-lived owner of a chip backend.
pub struct RadioRunner<B, const EVENTS: usize> {
    backend: B,
    config: WifiConfig,
    last_poll_error: Option<BackendError>,
}

/// The event that announces a unit result.
pub open spec fn unit_event(result: Result<(), BackendError>, success: WifiEvent) -> WifiEvent {
    match result {
        Ok(_) => success,
        Err(error) => WifiEvent::Failed(error),
    }
}

/// `call` is the one that serves `kind`: it hands over the request, or the
/// runner's configuration where the command has none.
pub open spec fn serves(kind: CommandKind, config: WifiConfig, call: WifiCall) -> bool {
    match (kind, call) {
        (CommandKind::Initialize, WifiCall::Initialize { config: given, .. }) => given == config,
        (CommandKind::Scan(request), WifiCall::Scan { config: given, .. }) => given == request,
        (CommandKind::Connect(request), WifiCall::Connect { config: given, .. }) => given
            == request,
        (CommandKind::Disconnect, WifiCall::Disconnect { config: given, .. }) => given == config,
        _ => false,
    }
}

/// The event that announces what `call` returned.
pub open spec fn call_event(call: WifiCall) -> WifiEvent {
    match call {
        WifiCall::Initialize { result, .. } => unit_event(result, WifiEvent::Initialized),
        WifiCall::Scan { result, .. } => match result {
            Ok(outcome) => WifiEvent::ScanCompleted {
                count: outcome.count,
                truncated: outcome.truncated,
            },
            Err(error) => WifiEvent::Failed(error),
        },
        WifiCall::Connect { result, .. } => match result {
            Ok(info) => WifiEvent::Connected(info),
            Err(error) => WifiEvent::Failed(error),
        },
        WifiCall::Disconnect { result, .. } => unit_event(
            result,
            WifiEvent::Disconnected { reason: 0 },
        ),
    }
}

/// The completion that carries what `call` returned.
pub open spec fn call_completion(call: WifiCall) -> CompletionKind {
    match call {
        WifiCall::Initialize { result, .. } => CompletionKind::Initialize(result),
        WifiCall::Scan { result, .. } => CompletionKind::Scan(result),
        WifiCall::Connect { result, .. } => CompletionKind::Connect(result),
        WifiCall::Disconnect { result, .. } => CompletionKind::Disconnect(result),
    }
}

/// The event that announces a completion; a protocol failure has none.
pub open spec fn completion_event(kind: CompletionKind) -> Option<WifiEvent> {
    match kind {
        CompletionKind::Initialize(result) => Some(unit_event(result, WifiEvent::Initialized)),
        CompletionKind::Scan(Ok(outcome)) => Some(
            WifiEvent::ScanCompleted { count: outcome.count, truncated: outcome.truncated },
        ),
        CompletionKind::Scan(Err(error)) => Some(WifiEvent::Failed(error)),
        CompletionKind::Connect(Ok(info)) => Some(WifiEvent::Connected(info)),
        CompletionKind::Connect(Err(error)) => Some(WifiEvent::Failed(error)),
        CompletionKind::Disconnect(result) => Some(
            unit_event(result, WifiEvent::Disconnected { reason: 0 }),
        ),
        CompletionKind::Protocol => None,
    }
}

/// The shared state after `completion` was announced and signalled.
pub open spec fn answered(before: RadioModel, capacity: nat, completion: Completion) -> RadioModel {
    match completion_event(completion.kind) {
        Some(event) => before.published(capacity, event),
        None => before,
    }.completed(completion)
}

/// The retained scan results after `call`: only a scan writes them.
pub open spec fn scan_results_after(before: Seq<ScanResult>, call: WifiCall) -> Seq<ScanResult> {
    match call {
        WifiCall::Scan { output, .. } => output,
        _ => before,
    }
}

/// The shared state after `call` served the command behind `sequence`: its
/// event is published and its completion signalled.
pub open spec fn served(
    before: RadioModel,
    capacity: nat,
    sequence: u32,
    call: WifiCall,
) -> RadioModel {
    (RadioModel {
        scan_results: scan_results_after(before.scan_results, call),
        ..before
    }).published(capacity, call_event(call)).completed(
        Completion { sequence, kind: call_completion(call) },
    )
}

/// The shared state, the remembered error, and the answer after background work
/// returned `background`. A repeated error is announced once.
pub open spec fn background_done(
    before: RadioModel,
    capacity: nat,
    last_error: Option<BackendError>,
    did_work: bool,
    background: Result<bool, BackendError>,
) -> (RadioModel, Option<BackendError>, bool) {
    match background {
        Ok(more) => (before, None, did_work || more),
        Err(error) => if last_error == Some(error) {
            (before, last_error, did_work)
        } else {
            (before.published(capacity, WifiEvent::Failed(error)), Some(error), true)
        },
    }
}

/// One turn of a runner: the oldest command, if there is one, was served by
/// `call`, and background work returned `background`.
pub open spec fn turns(
    config: WifiConfig,
    last_error: Option<BackendError>,
    before: RadioModel,
    capacity: nat,
    call: Option<WifiCall>,
    background: Result<bool, BackendError>,
    after: RadioModel,
    last_error_after: Option<BackendError>,
    more: bool,
) -> bool {
    match call {
        None => {
            &&& before.commands.len() == 0
            &&& (after, last_error_after, more) == background_done(
                before,
                capacity,
                last_error,
                false,
                background,
            )
        },
        Some(made) => {
            &&& before.commands.len() > 0
            &&& serves(before.commands[0].kind, config, made)
            &&& (after, last_error_after, more) == background_done(
                served(before.received(), capacity, before.commands[0].sequence, made),
                capacity,
                last_error,
                true,
                background,
            )
        },
    }
}

impl RadioModel {
    /// The state after the oldest command was taken.
    pub open spec fn received(self) -> Self {
        RadioModel { commands: self.commands.drop_first(), ..self }
    }
}

/// The command was served by one control call of the backend.
pub open spec fn command_steps<B: WifiBackend>(
    backend: B,
    config: WifiConfig,
    before: RadioModel,
    capacity: nat,
    command: Command,
    backend_after: B,
    after: RadioModel,
) -> bool {
    exists|call: WifiCall|
        {
            &&& #[trigger] serves(command.kind, config, call)
            &&& crate::wifi::control_steps(
                backend,
                before.scan_results,
                Some(call),
                backend_after,
            )
            &&& after == served(before, capacity, command.sequence, call)
        }
}

impl<B: WifiBackend, const EVENTS: usize> RadioRunner<B, EVENTS> {
    /// The backend as it stands.
    pub closed spec fn backend_state(&self) -> B {
        self.backend
    }

    /// Wi-Fi configuration handed to the backend.
    pub closed spec fn configuration(&self) -> WifiConfig {
        self.config
    }

    /// The error of the last background work, if it failed.
    pub closed spec fn last_error(&self) -> Option<BackendError> {
        self.last_poll_error
    }

    /// Process at most one command and one bounded background-work batch.
    ///
    /// The background work is one call of [`WifiBackend::poll`], made after the
    /// command on the backend as the command left it.
    ///
    /// A `true` result means another batch may be useful immediately; it does
    /// not grant the caller permission to monopolize a cooperative executor.
    /// A thread-based runner must yield or otherwise provide a scheduling point
    /// between calls.
    pub fn run_once(&mut self, state: &mut RadioState<EVENTS>) -> (more: bool)
        requires
            old(state).wf(),
        ensures
            final(state).wf(),
            final(self).configuration() == old(self).configuration(),
            exists|call: Option<WifiCall>, slot: &mut B, background: Result<bool, BackendError>|
                {
                    &&& #[trigger] turns(
                        old(self).configuration(),
                        old(self).last_error(),
                        old(state)@,
                        EVENTS as nat,
                        call,
                        background,
                        final(state)@,
                        final(self).last_error(),
                        more,
                    )
                    &&& crate::wifi::control_steps(
                        old(self).backend_state(),
                        old(state)@.scan_results,
                        call,
                        *slot,
                    )
                    &&& #[trigger] call_ensures(B::poll, (slot,), background)
                    &&& *final(slot) == final(self).backend_state()
                },
            crate::state::wakes(
                old(state)@,
                old(state).waiters(),
                final(state)@,
                final(state).waiters(),
            ),
    {
        let mut did_work = false;
        let ghost mut call: Option<WifiCall> = None;
        if let Some(command) = state.take_command() {
            let ghost taken = state@;
            self.process_command(state, command);
            did_work = true;
            proof {
                let made = choose|made: WifiCall|
                    {
                        &&& #[trigger] serves(command.kind, old(self).configuration(), made)
                        &&& crate::wifi::control_steps(
                            old(self).backend_state(),
                            taken.scan_results,
                            Some(made),
                            self.backend_state(),
                        )
                        &&& state@ == served(taken, EVENTS as nat, command.sequence, made)
                    };
                call = Some(made);
            }
        }
        let ghost middle = self.backend;
        let background = self.work();
        let more = self.conclude(state, did_work, background);
        assert(turns(
            old(self).configuration(),
            old(self).last_error(),
            old(state)@,
            EVENTS as nat,
            call,
            background,
            state@,
            self.last_error(),
            more,
        ));
        assert(crate::wifi::control_steps(
            old(self).backend_state(),
            old(state)@.scan_results,
            call,
            middle,
        ));
        more
    }

    /// Take in what background work returned, after a command was served or
    /// not. A failure is announced unless it is the one announced last.
    pub fn conclude(
        &mut self,
        state: &mut RadioState<EVENTS>,
        did_work: bool,
        background: Result<bool, BackendError>,
    ) -> (more: bool)
        requires
            old(state).wf(),
        ensures
            final(state).wf(),
            final(self).backend_state() == old(self).backend_state(),
            final(self).configuration() == old(self).configuration(),
            (final(state)@, final(self).last_error(), more) == background_done(
                old(state)@,
                EVENTS as nat,
                old(self).last_error(),
                did_work,
                background,
            ),
            crate::state::wakes(
                old(state)@,
                old(state).waiters(),
                final(state)@,
                final(state).waiters(),
            ),
    {
        match background {
            Ok(background_work) => {
                self.last_poll_error = None;
                did_work || background_work
            },
            Err(error) => {
                let repeated = match self.last_poll_error {
                    Some(last) => last == error,
                    None => false,
                };
                if repeated {
                    did_work
                } else {
                    state.publish_event(WifiEvent::Failed(error));
                    self.last_poll_error = Some(error);
                    true
                }
            },
        }
    }

    /// One turn of a command-driven runner: serve the next command, or wait for
    /// it.
    ///
    /// Backends with timer- or RX-driven [`WifiBackend::poll`] work must call
    /// [`Self::run_once`] from their platform runner so its wait primitive can
    /// cover both command and backend wake sources.
    pub fn run(&mut self, state: &mut RadioState<EVENTS>, cx: &mut Context<'_>) -> (turn: PollState<
        (),
    >)
        requires
            old(state).wf(),
        ensures
            final(state).wf(),
            final(self).configuration() == old(self).configuration(),
            final(self).last_error() == old(self).last_error(),
            match turn {
                PollState::Pending => {
                    &&& old(state)@.commands.len() == 0
                    &&& final(state)@ == old(state)@
                    &&& final(state).waiters() == (Waiters {
                        command: true,
                        ..old(state).waiters()
                    })
                    &&& final(self).backend_state() == old(self).backend_state()
                },
                PollState::Ready(_) => {
                    &&& old(state)@.commands.len() > 0
                    &&& command_steps(
                        old(self).backend_state(),
                        old(self).configuration(),
                        old(state)@.received(),
                        EVENTS as nat,
                        old(state)@.commands[0],
                        final(self).backend_state(),
                        final(state)@,
                    )
                    &&& crate::state::wakes(
                        old(state)@,
                        old(state).waiters(),
                        final(state)@,
                        final(state).waiters(),
                    )
                },
            },
    {
        match state.poll_command(cx) {
            PollState::Ready(command) => {
                self.process_command(state, command);
                PollState::Ready(())
            },
            PollState::Pending => PollState::Pending,
        }
    }

    fn process_command(&mut self, state: &mut RadioState<EVENTS>, command: Command)
        requires
            old(state).wf(),
        ensures
            final(state).wf(),
            final(self).configuration() == old(self).configuration(),
            final(self).last_error() == old(self).last_error(),
            command_steps(
                old(self).backend_state(),
                old(self).configuration(),
                old(state)@,
                EVENTS as nat,
                command,
                final(self).backend_state(),
                final(state)@,
            ),
            crate::state::wakes(
                old(state)@,
                old(state).waiters(),
                final(state)@,
                final(state).waiters(),
            ),
    {
        let ghost kind = command.kind;
        let ghost given = state@.scan_results;
        let completion = self.execute(command, &mut state.scan_results);
        proof {
            let call = choose|call: WifiCall|
                {
                    &&& #[trigger] serves(kind, old(self).configuration(), call)
                    &&& crate::wifi::control_steps(
                        old(self).backend_state(),
                        given,
                        Some(call),
                        self.backend_state(),
                    )
                    &&& completion == (Completion {
                        sequence: command.sequence,
                        kind: call_completion(call),
                    })
                    &&& state@.scan_results == scan_results_after(given, call)
                };
            assert(serves(command.kind, old(self).configuration(), call));
            assert(completion_event(completion.kind) == Some(call_event(call)));
        }
        self.answer(state, completion);
    }

    /// Serve `command` by one control call of the backend, which may write scan
    /// results to `output`. The shared state is not touched.
    pub fn execute(&mut self, command: Command, output: &mut [ScanResult]) -> (completion:
        Completion)
        ensures
            final(self).configuration() == old(self).configuration(),
            final(self).last_error() == old(self).last_error(),
            final(output)@.len() == old(output)@.len(),
            exists|call: WifiCall|
                {
                    &&& #[trigger] serves(command.kind, old(self).configuration(), call)
                    &&& crate::wifi::control_steps(
                        old(self).backend_state(),
                        old(output)@,
                        Some(call),
                        final(self).backend_state(),
                    )
                    &&& completion == (Completion {
                        sequence: command.sequence,
                        kind: call_completion(call),
                    })
                    &&& final(output)@ == scan_results_after(old(output)@, call)
                },
    {
        let sequence = command.sequence;
        let ghost call: WifiCall;
        let kind = match command.kind {
            CommandKind::Initialize => {
                let result = self.backend.initialize(&self.config);
                proof {
                    call = WifiCall::Initialize { config: self.config, result };
                }
                CompletionKind::Initialize(result)
            },
            CommandKind::Scan(config) => {
                let result = self.backend.scan(config, output);
                proof {
                    call = WifiCall::Scan { config, output: output@, result };
                }
                CompletionKind::Scan(result)
            },
            CommandKind::Connect(config) => {
                let result = self.backend.connect(&config);
                proof {
                    call = WifiCall::Connect { config, result };
                }
                CompletionKind::Connect(result)
            },
            CommandKind::Disconnect => {
                let result = self.backend.disconnect(&self.config);
                proof {
                    call = WifiCall::Disconnect { config: self.config, result };
                }
                CompletionKind::Disconnect(result)
            },
        };
        assert(serves(command.kind, old(self).configuration(), call));
        Completion { sequence, kind }
    }

    /// Announce `completion` as an event and hand it to the waiting operation.
    pub fn answer(&self, state: &mut RadioState<EVENTS>, completion: Completion)
        requires
            old(state).wf(),
        ensures
            final(state).wf(),
            final(state)@ == answered(old(state)@, EVENTS as nat, completion),
            crate::state::wakes(
                old(state)@,
                old(state).waiters(),
                final(state)@,
                final(state).waiters(),
            ),
    {
        match completion.kind {
            CompletionKind::Initialize(result) => {
                self.publish_result(state, result, WifiEvent::Initialized);
            },
            CompletionKind::Scan(Ok(outcome)) => {
                state.publish_event(
                    WifiEvent::ScanCompleted {
                        count: outcome.count,
                        truncated: outcome.truncated,
                    },
                );
            },
            CompletionKind::Connect(Ok(info)) => state.publish_event(WifiEvent::Connected(info)),
            CompletionKind::Scan(Err(error)) | CompletionKind::Connect(Err(error)) => {
                state.publish_event(WifiEvent::Failed(error));
            },
            CompletionKind::Disconnect(result) => {
                self.publish_result(state, result, WifiEvent::Disconnected { reason: 0 });
            },
            CompletionKind::Protocol => {},
        }
        state.completion.signal(completion);
    }

    /// Make one call of [`WifiBackend::poll`]. The shared state is not touched.
    pub fn work(&mut self) -> (background: Result<bool, BackendError>)
        ensures
            final(self).configuration() == old(self).configuration(),
            final(self).last_error() == old(self).last_error(),
            exists|slot: &mut B|
                {
                    &&& #[trigger] call_ensures(B::poll, (slot,), background)
                    &&& *slot == old(self).backend_state()
                    &&& *final(slot) == final(self).backend_state()
                },
    {
        self.backend.poll()
    }

    fn publish_result(
        &self,
        state: &mut RadioState<EVENTS>,
        result: Result<(), BackendError>,
        success: WifiEvent,
    )
        requires
            old(state).wf(),
        ensures
            final(state).wf(),
            final(state)@ == old(state)@.published(EVENTS as nat, unit_event(result, success)),
            final(state).waiters() == (Waiters { event: false, ..old(state).waiters() }),
    {
        let event = match result {
            Ok(()) => success,
            Err(error) => WifiEvent::Failed(error),
        };
        state.publish_event(event);
    }
}

/// L2 data-plane ownership independent of the control backend.
pub struct WifiDevice<D> {
    inner: D,
}

impl<D> WifiDevice<D> {
    /// The chip L2 device.
    pub closed spec fn view(&self) -> D {
        self.inner
    }

    /// Borrow the chip L2 device.
    pub fn inner(&self) -> (inner: &D)
        ensures
            *inner == self@,
    {
        &self.inner
    }

    /// Mutably borrow the chip L2 device.
    pub fn inner_mut(&mut self) -> (inner: &mut D)
        ensures
            *inner == old(self)@,
            final(self)@ == *final(inner),
    {
        &mut self.inner
    }

    /// Recover the chip L2 device.
    pub fn into_inner(self) -> (inner: D)
        ensures
            inner == self@,
    {
        self.inner
    }

    /// Link-layer properties, once the backend is initialized.
    pub fn l2_capabilities<const EVENTS: usize>(&self, state: &RadioState<EVENTS>) -> (capabilities:
        Option<WifiL2Capabilities>)
        ensures
            capabilities == state@.l2_capabilities,
    {
        state.l2_capabilities.snapshot()
    }

    /// Station MAC address, once the backend is initialized.
    pub fn station_mac_address<const EVENTS: usize>(&self, state: &RadioState<EVENTS>) -> (address:
        Option<[u8; 6]>)
        ensures
            match address {
                Some(bytes) => state@.l2_capabilities matches Some(c) && bytes@ == c@,
                None => state@.l2_capabilities is None,
            },
    {
        match state.l2_capabilities.snapshot() {
            Some(capabilities) => Some(capabilities.station_mac_address()),
            None => None,
        }
    }
}

/// A command that was served is answered: when the runner has served the
/// command of an operation, polling that operation returns what the backend
/// returned, whatever else changed in between, as long as the completion is
/// still there.
pub proof fn served_command_is_answered(
    operation: OperationModel,
    before: RadioModel,
    capacity: nat,
    call: WifiCall,
    between: RadioModel,
    post: OperationModel,
    after: RadioModel,
    result: PollState<CompletionKind>,
)
    requires
        operation.unsent is None,
        between.completion == served(before, capacity, operation.sequence, call).completion,
        operation_polls(operation, between, post, after, result),
    ensures
        result == PollState::Ready(call_completion(call)),
        after.completion is None,
{
}

/// A pending operation misses nothing: it waits for room while its command is
/// unsent and for a completion afterwards, and a runner step that makes room or
/// signals a completion wakes it.
pub proof fn pending_operation_is_woken(
    pre: OperationModel,
    before: RadioModel,
    earlier: Waiters,
    post: OperationModel,
    between: RadioModel,
    after: RadioModel,
    left: Waiters,
)
    requires
        operation_polls(pre, before, post, between, PollState::Pending),
        crate::state::wakes(
            between,
            waiters_after_poll(pre, before, earlier, PollState::Pending),
            after,
            left,
        ),
    ensures
        ({
            let waiting = waiters_after_poll(pre, before, earlier, PollState::Pending);
            if post.unsent is Some {
                &&& waiting.room
                &&& after.commands.len() == 0 ==> !left.room
            } else {
                &&& waiting.completion
                &&& after.completion is Some ==> !left.completion
            }
        }),
{
}

/// A completion of another command never ends an operation: the stale value is
/// dropped and the operation keeps waiting.
pub proof fn stale_completion_is_dropped(
    operation: OperationModel,
    before: RadioModel,
    stale: Completion,
    post: OperationModel,
    after: RadioModel,
    result: PollState<CompletionKind>,
)
    requires
        operation.unsent is None,
        before.completion == Some(stale),
        stale.sequence != operation.sequence,
        operation_polls(operation, before, post, after, result),
    ensures
        result is Pending,
        post == operation,
        after == (RadioModel { completion: None, ..before }),
{
}

/// A background failure that repeats is announced once: the second time it
/// changes nothing and asks for no further batch.
pub proof fn repeated_background_error_is_announced_once(
    before: RadioModel,
    capacity: nat,
    last_error: Option<BackendError>,
    error: BackendError,
)
    ensures
        ({
            let first = background_done(before, capacity, last_error, false, Err(error));
            let second = background_done(first.0, capacity, first.1, false, Err(error));
            second == (first.0, first.1, false)
        }),
{
}

/// The backend is handed what was asked for: an association and a scan get the
/// caller's own request, field by field, and an initialization and a disconnection
/// get the configuration that the radio was claimed with.
pub proof fn backend_is_handed_what_was_asked_for(
    config: WifiConfig,
    last_error: Option<BackendError>,
    before: RadioModel,
    capacity: nat,
    call: Option<WifiCall>,
    background: Result<bool, BackendError>,
    after: RadioModel,
    last_error_after: Option<BackendError>,
    more: bool,
)
    requires
        turns(
            config,
            last_error,
            before,
            capacity,
            call,
            background,
            after,
            last_error_after,
            more,
        ),
    ensures
        before.commands.len() == 0 <==> call is None,
        before.commands.len() > 0 ==> call is Some,
        before.commands.len() > 0 ==> match before.commands[0].kind {
            CommandKind::Initialize => call->Some_0 matches WifiCall::Initialize { config: given, .. }
                && given.initialize_timeout_ms == config.initialize_timeout_ms
                && given.disconnect_timeout_ms == config.disconnect_timeout_ms,
            CommandKind::Scan(request) => call->Some_0 matches WifiCall::Scan { config: given, .. }
                && given == request && given@ == request@,
            CommandKind::Connect(request) => call->Some_0 matches WifiCall::Connect {
                config: given,
                ..
            } && given == request && given.ssid@ == request.ssid@ && given.bssid@ == request.bssid@
                && given.channel == request.channel && given.passphrase@ == request.passphrase@
                && given.policy@ == request.policy@,
            CommandKind::Disconnect => call->Some_0 matches WifiCall::Disconnect { config: given, .. }
                && given.initialize_timeout_ms == config.initialize_timeout_ms
                && given.disconnect_timeout_ms == config.disconnect_timeout_ms,
        },
        before.commands.len() > 0 ==> after.commands == before.commands.drop_first(),
        before.commands.len() == 0 ==> after.commands == before.commands,
{
}

/// The same holds of one served command, whoever takes it from the channel.
pub proof fn served_command_hands_over_its_request<B: WifiBackend>(
    backend: B,
    config: WifiConfig,
    before: RadioModel,
    capacity: nat,
    command: Command,
    backend_after: B,
    after: RadioModel,
)
    requires
        command_steps(backend, config, before, capacity, command, backend_after, after),
    ensures
        match command.kind {
            CommandKind::Initialize => exists|result: Result<(), BackendError>|
                #[trigger] B::initializes(backend, config, backend_after, result)
                    && after.completion == Some(
                    Completion {
                        sequence: command.sequence,
                        kind: CompletionKind::Initialize(result),
                    },
                ),
            CommandKind::Scan(request) => exists|result: Result<ScanOutcome, BackendError>|
                #[trigger] B::scans(
                    backend,
                    request,
                    before.scan_results,
                    backend_after,
                    after.scan_results,
                    result,
                ) && after.completion == Some(
                    Completion { sequence: command.sequence, kind: CompletionKind::Scan(result) },
                ),
            CommandKind::Connect(request) => exists|result: Result<ConnectionInfo, BackendError>|
                #[trigger] B::connects(backend, request, backend_after, result)
                    && after.completion == Some(
                    Completion { sequence: command.sequence, kind: CompletionKind::Connect(result) },
                ),
            CommandKind::Disconnect => exists|result: Result<(), BackendError>|
                #[trigger] B::disconnects(backend, config, backend_after, result)
                    && after.completion == Some(
                    Completion {
                        sequence: command.sequence,
                        kind: CompletionKind::Disconnect(result),
                    },
                ),
        },
        !(command.kind is Scan) ==> after.scan_results == before.scan_results,
{
    let call = choose|call: WifiCall|
        {
            &&& #[trigger] serves(command.kind, config, call)
            &&& crate::wifi::control_steps(
                backend,
                before.scan_results,
                Some(call),
                backend_after,
            )
            &&& after == served(before, capacity, command.sequence, call)
        };
    match call {
        WifiCall::Initialize { config: given, result } => {
            assert(B::initializes(backend, config, backend_after, result));
        },
        WifiCall::Scan { config: given, output, result } => {
            assert(B::scans(
                backend,
                given,
                before.scan_results,
                backend_after,
                after.scan_results,
                result,
            ));
        },
        WifiCall::Connect { config: given, result } => {
            assert(B::connects(backend, given, backend_after, result));
        },
        WifiCall::Disconnect { config: given, result } => {
            assert(B::disconnects(backend, config, backend_after, result));
        },
    }
}

/// What the backend returned is what the controller hears: the newest event and
/// the completion carry the backend's own outcome or failure, and the completion
/// the sequence of the command. Only a scan changes the retained results.
pub proof fn backend_outcome_is_announced_and_signalled(
    before: RadioModel,
    capacity: nat,
    sequence: u32,
    call: WifiCall,
)
    requires
        0 < capacity,
        before.events.len() <= capacity,
    ensures
        ({
            let after = served(before, capacity, sequence, call);
            let event = after.events.last();
            &&& 0 < after.events.len() <= capacity
            &&& after.completion matches Some(completion)
            &&& completion.sequence == sequence
            &&& match call {
                WifiCall::Initialize { result, .. } => {
                    &&& completion.kind == CompletionKind::Initialize(result)
                    &&& result is Ok ==> event is Initialized
                    &&& result matches Err(error) ==> event == WifiEvent::Failed(error)
                },
                WifiCall::Scan { result, .. } => {
                    &&& completion.kind == CompletionKind::Scan(result)
                    &&& result matches Ok(outcome) ==> (event matches WifiEvent::ScanCompleted {
                        count,
                        truncated,
                    } && count == outcome.count && truncated == outcome.truncated)
                    &&& result matches Err(error) ==> event == WifiEvent::Failed(error)
                },
                WifiCall::Connect { result, .. } => {
                    &&& completion.kind == CompletionKind::Connect(result)
                    &&& result matches Ok(info) ==> event == WifiEvent::Connected(info)
                    &&& result matches Err(error) ==> event == WifiEvent::Failed(error)
                },
                WifiCall::Disconnect { result, .. } => {
                    &&& completion.kind == CompletionKind::Disconnect(result)
                    &&& result is Ok ==> (event matches WifiEvent::Disconnected { reason } && reason
                        == 0)
                    &&& result matches Err(error) ==> event == WifiEvent::Failed(error)
                },
            }
            &&& call matches WifiCall::Scan { output, .. } ==> after.scan_results == output
            &&& !(call is Scan) ==> after.scan_results == before.scan_results
            &&& after.commands == before.commands
            &&& after.cancellations == before.cancellations
            &&& after.l2_capabilities == before.l2_capabilities
        }),
{
}

/// An answered completion is announced as what it says and signalled unchanged. A
/// protocol failure is signalled without an event.
pub proof fn answer_announces_the_completion(
    before: RadioModel,
    capacity: nat,
    completion: Completion,
)
    requires
        0 < capacity,
        before.events.len() <= capacity,
    ensures
        ({
            let after = answered(before, capacity, completion);
            let event = after.events.last();
            &&& after.completion == Some(completion)
            &&& after.scan_results == before.scan_results
            &&& after.commands == before.commands
            &&& match completion.kind {
                CompletionKind::Initialize(Ok(_)) => event is Initialized,
                CompletionKind::Scan(Ok(outcome)) => event matches WifiEvent::ScanCompleted {
                    count,
                    truncated,
                } && count == outcome.count && truncated == outcome.truncated,
                CompletionKind::Connect(Ok(info)) => event == WifiEvent::Connected(info),
                CompletionKind::Disconnect(Ok(_)) => event matches WifiEvent::Disconnected { reason }
                    && reason == 0,
                CompletionKind::Initialize(Err(error)) => event == WifiEvent::Failed(error),
                CompletionKind::Scan(Err(error)) => event == WifiEvent::Failed(error),
                CompletionKind::Connect(Err(error)) => event == WifiEvent::Failed(error),
                CompletionKind::Disconnect(Err(error)) => event == WifiEvent::Failed(error),
                CompletionKind::Protocol => after.events == before.events,
            }
        }),
{
}

/// From the call to the answer: a command that finds the channel empty is the one
/// that the runner serves, and the next poll of its operation returns what the
/// backend returned for exactly that request.
pub proof fn operation_returns_what_the_backend_returned(
    operation: OperationModel,
    kind: CommandKind,
    before: RadioModel,
    sent: OperationModel,
    between: RadioModel,
    config: WifiConfig,
    last_error: Option<BackendError>,
    capacity: nat,
    call: Option<WifiCall>,
    background: Result<bool, BackendError>,
    after: RadioModel,
    last_error_after: Option<BackendError>,
    more: bool,
    over: OperationModel,
    left: RadioModel,
    result: PollState<CompletionKind>,
)
    requires
        operation.unsent == Some(kind),
        before.commands.len() == 0,
        operation_polls(operation, before, sent, between, PollState::Pending),
        turns(
            config,
            last_error,
            between,
            capacity,
            call,
            background,
            after,
            last_error_after,
            more,
        ),
        operation_polls(sent, after, over, left, result),
    ensures
        between.commands.len() == 1,
        between.commands[0].sequence == operation.sequence,
        between.commands[0].kind == kind,
        between.command_high_water >= 1,
        after.commands.len() == 0,
        over.over,
        left.completion is None,
        call matches Some(made) && match kind {
            CommandKind::Initialize => made matches WifiCall::Initialize { config: given, result: r }
                && given == config && result == PollState::Ready(CompletionKind::Initialize(r)),
            CommandKind::Scan(request) => made matches WifiCall::Scan {
                config: given,
                output,
                result: r,
            } && given == request && left.scan_results == output && result == PollState::Ready(
                CompletionKind::Scan(r),
            ),
            CommandKind::Connect(request) => made matches WifiCall::Connect {
                config: given,
                result: r,
            } && given == request && result == PollState::Ready(CompletionKind::Connect(r)),
            CommandKind::Disconnect => made matches WifiCall::Disconnect { config: given, result: r }
                && given == config && result == PollState::Ready(CompletionKind::Disconnect(r)),
        },
{
}

/// A full channel makes an operation wait with its command; nothing is lost,
/// replaced, or sent twice.
pub proof fn command_waits_for_room(
    operation: OperationModel,
    before: RadioModel,
    post: OperationModel,
    after: RadioModel,
    result: PollState<CompletionKind>,
)
    requires
        operation_polls(operation, before, post, after, result),
    ensures
        operation.unsent is Some && before.commands.len() > 0 ==> {
            &&& result is Pending
            &&& post.unsent == operation.unsent
            &&& after.commands == before.commands
            &&& after.completion == before.completion
        },
        operation.unsent is None ==> after.commands == before.commands,
        post.sequence == operation.sequence,
        result is Ready ==> post.unsent is None && post.over,
        result is Pending ==> post.over == operation.over,
        after.events == before.events,
        after.cancellations == before.cancellations,
        after.scan_results == before.scan_results,
        after.dropped_events == before.dropped_events,
{
}

/// Background work changes nothing but what its failure announces: a success asks
/// for another batch exactly when there was work, and a failure that is not the
/// last one becomes the newest event and is remembered.
pub proof fn background_result_is_taken_as_it_is(
    before: RadioModel,
    capacity: nat,
    last_error: Option<BackendError>,
    did_work: bool,
    background: Result<bool, BackendError>,
)
    requires
        0 < capacity,
        before.events.len() <= capacity,
    ensures
        ({
            let (after, remembered, more) = background_done(
                before,
                capacity,
                last_error,
                did_work,
                background,
            );
            &&& background matches Ok(work) ==> {
                &&& after == before
                &&& remembered is None
                &&& more <==> did_work || work
            }
            &&& background matches Err(error) ==> {
                &&& remembered == Some(error)
                &&& last_error == Some(error) ==> after == before && more == did_work
                &&& last_error != Some(error) ==> {
                    &&& more
                    &&& after.events.len() > 0
                    &&& after.events.last() == WifiEvent::Failed(error)
                    &&& after.events.len() == before.events.len() + 1 || before.events.len()
                        == capacity
                }
            }
            &&& after.completion == before.completion
            &&& after.commands == before.commands
            &&& after.scan_results == before.scan_results
        }),
{
}

/// A backend result reaches the caller unchanged: the value of a success, and the
/// failure with its class and code.
pub proof fn lifting_keeps_the_result<T>(result: Result<T, BackendError>)
    ensures
        result matches Ok(value) ==> lifted(result) == Ok::<T, Error>(value),
        result matches Err(error) ==> (lifted(result) matches Err(Error::Backend(kept))
            && kept.class == error.class && kept.code == error.code),
{
}

/// As many entries are copied as fit both sides, and no fewer.
pub proof fn copied_entries_fit_both_sides(count: nat, room: nat)
    ensures
        copied(count, room) <= count,
        copied(count, room) <= room,
        copied(count, room) == count || copied(count, room) == room,
{
}

/// Sequences count up by one, from one, and start over at one.
pub proof fn sequences_count_up(sequence: u32)
    ensures
        sequence < u32::MAX ==> next_sequence(sequence) - sequence == 1,
        sequence == u32::MAX ==> next_sequence(sequence) == next_sequence(0),
{
}

/// A pending operation is woken by what it needs next and leaves nobody else
/// waiting differently: room for its command while the channel is full, and its
/// completion once the command is in. A command that entered has woken the runner.
pub proof fn pending_operation_waits_for_what_it_needs(
    pre: OperationModel,
    before: RadioModel,
    waiting: Waiters,
    result: PollState<CompletionKind>,
)
    ensures
        ({
            let left = waiters_after_poll(pre, before, waiting, result);
            let blocked = pre.unsent is Some && before.commands.len() > 0;
            &&& blocked ==> left.room && left.completion == waiting.completion && left.command
                == waiting.command
            &&& !blocked ==> left.room == waiting.room
            &&& !blocked ==> (left.completion <==> result is Pending)
            &&& !blocked && pre.unsent is Some ==> !left.command
            &&& pre.unsent is None ==> left.command == waiting.command
            &&& left.cancellation == waiting.cancellation
            &&& left.event == waiting.event
        }),
{
}

/// A turn answers the oldest command and takes no other: its completion is signalled
/// under its sequence with what the backend returned, and a success is the newest
/// event unless background work failed after it. Serving a command asks for another
/// turn; without one, a turn does what background work does.
pub proof fn turn_answers_the_oldest_command(
    config: WifiConfig,
    last_error: Option<BackendError>,
    before: RadioModel,
    capacity: nat,
    call: Option<WifiCall>,
    background: Result<bool, BackendError>,
    after: RadioModel,
    last_error_after: Option<BackendError>,
    more: bool,
)
    requires
        0 < capacity,
        before.events.len() <= capacity,
        turns(
            config,
            last_error,
            before,
            capacity,
            call,
            background,
            after,
            last_error_after,
            more,
        ),
    ensures
        call is None ==> {
            &&& after.completion == before.completion
            &&& after.scan_results == before.scan_results
            &&& background matches Ok(work) ==> more == work && after == before
        },
        call matches Some(made) ==> {
            &&& more
            &&& after.completion matches Some(signalled)
            &&& signalled.sequence == before.commands[0].sequence
            &&& match made {
                WifiCall::Initialize { result, .. } => {
                    &&& signalled.kind == CompletionKind::Initialize(result)
                    &&& result is Ok && background is Ok ==> after.events.last() is Initialized
                },
                WifiCall::Scan { output, result, .. } => {
                    &&& signalled.kind == CompletionKind::Scan(result)
                    &&& after.scan_results == output
                    &&& result is Ok && background is Ok ==> (
                    after.events.last() matches WifiEvent::ScanCompleted { count, truncated }
                        && count == result->Ok_0.count && truncated == result->Ok_0.truncated)
                },
                WifiCall::Connect { result, .. } => {
                    &&& signalled.kind == CompletionKind::Connect(result)
                    &&& result is Ok && background is Ok ==> after.events.last()
                        == WifiEvent::Connected(result->Ok_0)
                },
                WifiCall::Disconnect { result, .. } => {
                    &&& signalled.kind == CompletionKind::Disconnect(result)
                    &&& result is Ok && background is Ok ==> (
                    after.events.last() matches WifiEvent::Disconnected { reason } && reason == 0)
                },
            }
        },
        background is Ok ==> last_error_after is None,
        background matches Err(error) ==> last_error_after == Some(error) && (last_error
            != Some(error) ==> more && after.events.last() == WifiEvent::Failed(error)),
{
}

/// A result of another kind is never mistaken for the one that was asked for: each
/// conversion gives the backend's result of its own kind and a protocol failure for
/// every other completion.
pub proof fn completion_converts_in_its_own_kind(
    kind: CompletionKind,
    initialized: Result<(), Error>,
    scanned: Result<ScanOutcome, Error>,
    connected: Result<ConnectionInfo, Error>,
    disconnected: Result<(), Error>,
)
    requires
        call_ensures(CompletionKind::into_initialized, (kind,), initialized),
        call_ensures(CompletionKind::into_scanned, (kind,), scanned),
        call_ensures(CompletionKind::into_connected, (kind,), connected),
        call_ensures(CompletionKind::into_disconnected, (kind,), disconnected),
    ensures
        kind matches CompletionKind::Initialize(Ok(_)) ==> initialized is Ok,
        kind matches CompletionKind::Initialize(Err(error)) ==> initialized == Err::<(), Error>(
            Error::Backend(error),
        ),
        !(kind is Initialize) ==> initialized == Err::<(), Error>(Error::Protocol),
        kind matches CompletionKind::Scan(Ok(outcome)) ==> scanned == Ok::<ScanOutcome, Error>(
            outcome,
        ),
        kind matches CompletionKind::Scan(Err(error)) ==> scanned == Err::<ScanOutcome, Error>(
            Error::Backend(error),
        ),
        !(kind is Scan) ==> scanned == Err::<ScanOutcome, Error>(Error::Protocol),
        kind matches CompletionKind::Connect(Ok(info)) ==> connected == Ok::<ConnectionInfo, Error>(
            info,
        ),
        kind matches CompletionKind::Connect(Err(error)) ==> connected == Err::<
            ConnectionInfo,
            Error,
        >(Error::Backend(error)),
        !(kind is Connect) ==> connected == Err::<ConnectionInfo, Error>(Error::Protocol),
        kind matches CompletionKind::Disconnect(Ok(_)) ==> disconnected is Ok,
        kind matches CompletionKind::Disconnect(Err(error)) ==> disconnected == Err::<(), Error>(
            Error::Backend(error),
        ),
        !(kind is Disconnect) ==> disconnected == Err::<(), Error>(Error::Protocol),
{
}

/// A controller hands over exactly what its caller asked for, under a sequence that
/// differs from its last one; nothing is sent yet, and nothing is over.
pub proof fn controller_hands_over_the_callers_request<const EVENTS: usize>()
    ensures
        forall|
            slot: &mut WifiController<EVENTS>,
            request: StationConfig,
            operation: ControlOperation,
        | #[trigger]
            call_ensures(WifiController::<EVENTS>::connect, (slot, request), operation) ==> {
                &&& operation@.unsent matches Some(CommandKind::Connect(asked))
                &&& asked.ssid@ == request.ssid@
                &&& asked.bssid@ == request.bssid@
                &&& asked.channel == request.channel
                &&& asked.passphrase@ == request.passphrase@
                &&& asked.policy@ == request.policy@
                &&& operation@.sequence == final(slot)@
                &&& operation@.sequence != slot@
                &&& operation@.sequence != 0
                &&& !operation@.over
            },
        forall|
            slot: &mut WifiController<EVENTS>,
            request: ScanConfig,
            operation: ControlOperation,
        | #[trigger]
            call_ensures(WifiController::<EVENTS>::scan, (slot, request), operation) ==> {
                &&& operation@.unsent matches Some(CommandKind::Scan(asked))
                &&& asked@ == request@
                &&& operation@.sequence == final(slot)@
                &&& operation@.sequence != slot@
                &&& operation@.sequence != 0
                &&& !operation@.over
            },
        forall|slot: &mut WifiController<EVENTS>, operation: ControlOperation| #[trigger]
            call_ensures(WifiController::<EVENTS>::initialize, (slot,), operation) ==> {
                &&& operation@.unsent == Some(CommandKind::Initialize)
                &&& operation@.sequence == final(slot)@
                &&& operation@.sequence != slot@
                &&& operation@.sequence != 0
                &&& !operation@.over
            },
        forall|slot: &mut WifiController<EVENTS>, operation: ControlOperation| #[trigger]
            call_ensures(WifiController::<EVENTS>::disconnect, (slot,), operation) ==> {
                &&& operation@.unsent == Some(CommandKind::Disconnect)
                &&& operation@.sequence == final(slot)@
                &&& operation@.sequence != slot@
                &&& operation@.sequence != 0
                &&& !operation@.over
            },
{
}

/// Serving a command makes the backend call that it asks for, with the caller's own
/// request or the runner's configuration, and completes it with what that call
/// returned.
pub proof fn execution_makes_the_call_asked_for<B: WifiBackend, const EVENTS: usize>()
    ensures
        forall|
            slot: &mut RadioRunner<B, EVENTS>,
            command: Command,
            output: &mut [ScanResult],
            completion: Completion,
        | #[trigger]
            call_ensures(
                RadioRunner::<B, EVENTS>::execute,
                (slot, command, output),
                completion,
            ) ==> {
                let before = slot.backend_state();
                let after = final(slot).backend_state();
                &&& completion.sequence == command.sequence
                &&& match command.kind {
                    CommandKind::Initialize => completion.kind matches CompletionKind::Initialize(
                        result,
                    ) && B::initializes(before, slot.configuration(), after, result),
                    CommandKind::Scan(request) => completion.kind matches CompletionKind::Scan(
                        result,
                    ) && B::scans(before, request, output@, after, final(output)@, result),
                    CommandKind::Connect(request) => completion.kind matches CompletionKind::Connect(
                        result,
                    ) && B::connects(before, request, after, result),
                    CommandKind::Disconnect => completion.kind matches CompletionKind::Disconnect(
                        result,
                    ) && B::disconnects(before, slot.configuration(), after, result),
                }
                &&& !(command.kind is Scan) ==> final(output)@ == output@
                &&& final(slot).configuration() == slot.configuration()
            },
{
}

/// Answering a completion puts the backend's own outcome at the end of the event
/// queue and hands the completion on unchanged.
pub proof fn answer_reports_the_outcome<B: WifiBackend, const EVENTS: usize>()
    ensures
        forall|
            runner: RadioRunner<B, EVENTS>,
            slot: &mut RadioState<EVENTS>,
            completion: Completion,
        | #[trigger]
            call_ensures(RadioRunner::<B, EVENTS>::answer, (&runner, slot, completion), ())
                && slot.wf() ==> {
                let event = final(slot)@.events.last();
                &&& final(slot)@.completion == Some(completion)
                &&& completion.kind matches CompletionKind::Scan(Ok(outcome)) ==> (
                event matches WifiEvent::ScanCompleted { count, truncated } && count
                    == outcome.count && truncated == outcome.truncated)
                &&& completion.kind matches CompletionKind::Scan(Err(error)) ==> event
                    == WifiEvent::Failed(error)
                &&& completion.kind matches CompletionKind::Connect(Ok(info)) ==> event
                    == WifiEvent::Connected(info)
                &&& completion.kind matches CompletionKind::Connect(Err(error)) ==> event
                    == WifiEvent::Failed(error)
                &&& completion.kind matches CompletionKind::Initialize(Ok(_))
                    ==> event is Initialized
                &&& completion.kind matches CompletionKind::Initialize(Err(error)) ==> event
                    == WifiEvent::Failed(error)
                &&& completion.kind matches CompletionKind::Disconnect(Ok(_)) ==> (
                event matches WifiEvent::Disconnected { reason } && reason == 0)
                &&& completion.kind matches CompletionKind::Disconnect(Err(error)) ==> event
                    == WifiEvent::Failed(error)
                &&& completion.kind is Protocol ==> final(slot)@.events == slot@.events
            },
{
}

/// An operation that is given up asks for the cancellation of its own command, and
/// only of one that was sent and is not over; the other queued ones stay first.
pub proof fn abandoned_operation_cancels_its_own_command<const EVENTS: usize>()
    ensures
        forall|operation: &mut ControlOperation, slot: &mut RadioState<EVENTS>| #[trigger]
            call_ensures(ControlOperation::abandon::<EVENTS>, (operation, slot), ()) ==> {
                let asked = final(slot)@.cancellations;
                let queued = slot@.cancellations;
                &&& final(operation)@.over
                &&& final(operation)@.sequence == operation@.sequence
                &&& operation@.over || operation@.unsent is Some ==> asked == queued
                &&& asked != queued ==> {
                    &&& asked.len() == queued.len() + 1
                    &&& asked.last() == operation@.sequence
                    &&& forall|i: int|
                        0 <= i < queued.len() ==> #[trigger] asked[i] == queued[i]
                }
                &&& !operation@.over && operation@.unsent is None && queued.len() == 0 ==> asked
                    == seq![operation@.sequence]
                &&& final(slot)@.commands == slot@.commands
                &&& final(slot)@.events == slot@.events
            },
{
}

/// Splitting a radio hands over the parts that it was claimed with: the runner has
/// the backend and the Wi-Fi configuration, the data plane the device.
pub proof fn split_hands_over_what_was_claimed<B: WifiBackend, D, const EVENTS: usize>()
    ensures
        forall|
            config: RadioConfig,
            resources: RadioResources<B, D>,
            slot: &mut RadioState<EVENTS>,
            controller: RadioController<B, D, EVENTS>,
            parts: RadioParts<B, D, EVENTS>,
        |
            #[trigger] call_ensures(
                init::<B, D, EVENTS>,
                (config, resources, slot),
                Ok(controller),
            ) && #[trigger] call_ensures(
                RadioController::<B, D, EVENTS>::split,
                (controller,),
                parts,
            ) ==> {
                &&& !slot@.claimed
                &&& final(slot)@.claimed
                &&& parts.runner.configuration() == config.wifi
                &&& parts.runner.backend_state() == resources.backend
                &&& parts.wifi.device@ == resources.device
            },
{
}

/// Whoever waits for what a turn did is woken by it: for room when a command was
/// taken, for a completion when one was signalled, for an event when one was
/// published. A command-driven runner that finds no command waits for the next one.
pub proof fn turn_wakes_who_waits_for_it<B: WifiBackend, const EVENTS: usize>()
    ensures
        forall|slot: &mut RadioRunner<B, EVENTS>, state: &mut RadioState<EVENTS>, more: bool|
            #[trigger] call_ensures(RadioRunner::<B, EVENTS>::run_once, (slot, state), more) ==> {
                let left = final(state).waiters();
                &&& final(state)@.commands.len() < state@.commands.len() ==> !left.room
                &&& final(state)@.completion != state@.completion ==> !left.completion
                &&& final(state)@.events != state@.events ==> !left.event
                &&& final(slot).configuration() == slot.configuration()
            },
        forall|
            slot: &mut RadioRunner<B, EVENTS>,
            state: &mut RadioState<EVENTS>,
            cx: &mut Context<'_>,
            turn: PollState<()>,
        | #[trigger]
            call_ensures(RadioRunner::<B, EVENTS>::run, (slot, state, cx), turn) ==> {
                &&& turn is Pending <==> state@.commands.len() == 0
                &&& turn is Pending ==> final(state).waiters().command && final(state)@ == state@
                &&& turn is Ready ==> (final(state)@.completion matches Some(signalled)
                    && signalled.sequence == state@.commands[0].sequence)
                &&& final(slot).configuration() == slot.configuration()
            },
{
}

/// An event is delivered once, oldest first, and a controller that finds none is
/// woken by the next one.
pub proof fn events_are_delivered_oldest_first<const EVENTS: usize>()
    ensures
        forall|
            slot: &mut WifiController<EVENTS>,
            state: &mut RadioState<EVENTS>,
            cx: &mut Context<'_>,
            next: PollState<WifiEvent>,
        | #[trigger]
            call_ensures(WifiController::<EVENTS>::next_event, (slot, state, cx), next) ==> {
                &&& next is Pending <==> state@.events.len() == 0
                &&& next is Pending ==> final(state).waiters().event && final(state)@ == state@
                &&& next matches PollState::Ready(event) ==> {
                    &&& event == state@.events[0]
                    &&& final(state)@.events.len() == state@.events.len() - 1
                    &&& forall|i: int|
                        0 <= i < final(state)@.events.len()
                            ==> #[trigger] final(state)@.events[i] == state@.events[i + 1]
                }
                &&& final(state)@.completion == state@.completion
                &&& final(state)@.commands == state@.commands
                &&& final(state)@.dropped_events == state@.dropped_events
            },
{
}

/// The results of a scan are copied from the front, as many as there are and fit,
/// and a cut is told: by the backend's own word, or because the buffer is smaller.
pub proof fn scan_results_are_copied_from_the_front<const EVENTS: usize>()
    ensures
        forall|
            state: RadioState<EVENTS>,
            backend: ScanOutcome,
            output: &mut [ScanResult],
            outcome: ScanOutcome,
        | #[trigger]
            call_ensures(copy_scan_results::<EVENTS>, (&state, backend, output), outcome) ==> {
                &&& outcome.count <= backend.count
                &&& outcome.count <= output@.len()
                &&& outcome.count == backend.count || outcome.count == output@.len()
                &&& outcome.truncated <==> backend.truncated || outcome.count < backend.count
                &&& final(output)@.len() == output@.len()
                &&& forall|i: int|
                    0 <= i < outcome.count ==> #[trigger] final(output)@[i]
                        == state@.scan_results[i]
                &&& forall|i: int|
                    outcome.count <= i < output@.len() ==> #[trigger] final(output)@[i]
                        == output@[i]
            },
{
}

} // verus!
