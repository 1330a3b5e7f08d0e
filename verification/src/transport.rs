//! Messages between the Wi-Fi control plane and its runner, and the channels
//! that carry them.
//!
//! The channels are `embassy_sync` ones behind critical sections. Each is held
//! in a type of its own whose contents have a name: the queued messages in the
//! order they will come out, or the signalled value. A second name says whether a
//! task is registered to be woken; which task that is stays unsaid.

use core::future::Future;
use core::task::{Context, Poll};

use embassy_sync::blocking_mutex::raw::CriticalSectionRawMutex;
use embassy_sync::channel::{Channel, TrySendError};
use embassy_sync::signal::Signal;
use embassy_sync::waitqueue::WakerRegistration;
use vstd::prelude::*;

use crate::control::LifecycleId;
use crate::incremental::PollState;
use crate::wifi::{BackendError, ConnectionInfo, ScanConfig, ScanOutcome, StationConfig};

verus! {

/// Operation that a controller asks the runner for.
pub enum CommandKind {
    /// Initialize the backend.
    Initialize,
    /// Scan for networks.
    Scan(ScanConfig),
    /// Associate with a network.
    Connect(StationConfig),
    /// Leave the network.
    Disconnect,
}

/// One operation under the sequence that its completion will carry.
pub struct Command {
    /// Controller sequence.
    pub sequence: u32,
    /// Operation asked for.
    pub kind: CommandKind,
}

/// Result of one operation, by the kind of the operation.
#[derive(Clone, Copy, Debug, PartialEq, Eq)]
pub enum CompletionKind {
    /// Initialization ended.
    Initialize(Result<(), BackendError>),
    /// Scan ended.
    Scan(Result<ScanOutcome, BackendError>),
    /// Association ended.
    Connect(Result<ConnectionInfo, BackendError>),
    /// Disconnection ended.
    Disconnect(Result<(), BackendError>),
    /// The runner could not serve the command.
    Protocol,
}

/// Result of one operation under the sequence of its command.
#[derive(Clone, Copy, Debug, PartialEq, Eq)]
pub struct Completion {
    /// Sequence of the command that ended.
    pub sequence: u32,
    /// Result.
    pub kind: CompletionKind,
}

/// Commands a [`CommandChannel`] holds at most.
pub const COMMAND_CAPACITY: usize = 1;

/// Sequences a [`CancellationChannel`] holds at most.
pub const CANCELLATION_CAPACITY: usize = 3;

/// The bounded command channel, an `embassy_sync::channel::Channel` of one
/// entry.
#[verifier::external_body]
pub struct CommandChannel {
    inner: Channel<CriticalSectionRawMutex, Command, 1>,
}

/// Commands in the channel, oldest first.
pub uninterp spec fn queued_commands(channel: CommandChannel) -> Seq<Command>;

/// A task is registered to be woken by the next command.
pub uninterp spec fn command_awaited(channel: CommandChannel) -> bool;

/// A task is registered to be woken when the channel has room again.
pub uninterp spec fn room_awaited(channel: CommandChannel) -> bool;

impl CommandChannel {
    /// Commands in the channel, oldest first.
    pub open spec fn view(&self) -> Seq<Command> {
        queued_commands(*self)
    }

    /// `Channel::new`: a new channel holds nothing, and no task waits for it.
    #[verifier::external_body]
    pub(crate) fn new() -> (channel: Self)
        ensures
            queued_commands(channel) == Seq::<Command>::empty(),
            !command_awaited(channel),
            !room_awaited(channel),
    {
        CommandChannel { inner: Channel::new() }
    }

    /// `Channel::try_send`: the message goes behind what is queued while the
    /// one entry is free, and the task that waits for one is woken. Otherwise the
    /// message comes back.
    #[verifier::external_body]
    pub(crate) fn try_send(&mut self, command: Command) -> (result: Result<(), Command>)
        ensures
            match result {
                Ok(_) => {
                    &&& queued_commands(*old(self)).len() < COMMAND_CAPACITY
                    &&& queued_commands(*final(self)) == queued_commands(*old(self)).push(command)
                    &&& !command_awaited(*final(self))
                },
                Err(refused) => {
                    &&& queued_commands(*old(self)).len() >= COMMAND_CAPACITY
                    &&& refused == command
                    &&& queued_commands(*final(self)) == queued_commands(*old(self))
                    &&& command_awaited(*final(self)) == command_awaited(*old(self))
                },
            },
            room_awaited(*final(self)) == room_awaited(*old(self)),
    {
        match self.inner.try_send(command) {
            Ok(()) => Ok(()),
            Err(TrySendError::Full(refused)) => Err(refused),
        }
    }

    /// `Channel::try_receive`: the oldest message comes out, if there is one. It
    /// fills the one entry, so the task that waits for room is woken.
    #[verifier::external_body]
    pub(crate) fn try_receive(&mut self) -> (command: Option<Command>)
        ensures
            match command {
                Some(received) => {
                    &&& queued_commands(*old(self)).len() > 0
                    &&& received == queued_commands(*old(self))[0]
                    &&& queued_commands(*final(self)) == queued_commands(*old(self)).drop_first()
                    &&& !room_awaited(*final(self))
                },
                None => {
                    &&& queued_commands(*old(self)).len() == 0
                    &&& queued_commands(*final(self)) == queued_commands(*old(self))
                    &&& room_awaited(*final(self)) == room_awaited(*old(self))
                },
            },
            command_awaited(*final(self)) == command_awaited(*old(self)),
    {
        self.inner.try_receive().ok()
    }

    /// `Channel::is_empty`: whether nothing is queued.
    #[verifier::external_body]
    pub(crate) fn is_empty(&self) -> (empty: bool)
        ensures
            empty == (queued_commands(*self).len() == 0),
    {
        self.inner.is_empty()
    }

    /// `Channel::poll_ready_to_receive`: whether something is queued. The task of
    /// `cx` is registered either way.
    #[verifier::external_body]
    pub(crate) fn poll_ready_to_receive(&mut self, cx: &mut Context<'_>) -> (ready: bool)
        ensures
            ready == (queued_commands(*old(self)).len() > 0),
            queued_commands(*final(self)) == queued_commands(*old(self)),
            command_awaited(*final(self)),
            room_awaited(*final(self)) == room_awaited(*old(self)),
    {
        self.inner.poll_ready_to_receive(cx).is_ready()
    }

    /// `Channel::poll_ready_to_send`: whether the one entry is free. The task of
    /// `cx` is registered either way.
    #[verifier::external_body]
    pub(crate) fn poll_ready_to_send(&mut self, cx: &mut Context<'_>) -> (ready: bool)
        ensures
            ready == (queued_commands(*old(self)).len() < COMMAND_CAPACITY),
            queued_commands(*final(self)) == queued_commands(*old(self)),
            command_awaited(*final(self)) == command_awaited(*old(self)),
            room_awaited(*final(self)),
    {
        self.inner.poll_ready_to_send(cx).is_ready()
    }
}

/// The bounded channel of abandoned sequences, an
/// `embassy_sync::channel::Channel` of three entries.
#[verifier::external_body]
pub struct CancellationChannel {
    inner: Channel<CriticalSectionRawMutex, u32, 3>,
}

/// Sequences in the channel, oldest first.
pub uninterp spec fn queued_cancellations(channel: CancellationChannel) -> Seq<u32>;

/// A task is registered to be woken by the next abandoned sequence.
pub uninterp spec fn cancellation_awaited(channel: CancellationChannel) -> bool;

impl CancellationChannel {
    /// Sequences in the channel, oldest first.
    pub open spec fn view(&self) -> Seq<u32> {
        queued_cancellations(*self)
    }

    /// `Channel::new`: a new channel holds nothing, and no task waits for it.
    #[verifier::external_body]
    pub(crate) fn new() -> (channel: Self)
        ensures
            queued_cancellations(channel) == Seq::<u32>::empty(),
            !cancellation_awaited(channel),
    {
        CancellationChannel { inner: Channel::new() }
    }

    /// `Channel::try_send`: the message goes behind what is queued while one of
    /// the three entries is free, and the task that waits for one is woken.
    /// Otherwise the message is refused.
    #[verifier::external_body]
    pub(crate) fn try_send(&mut self, sequence: u32) -> (accepted: bool)
        ensures
            accepted == (queued_cancellations(*old(self)).len() < CANCELLATION_CAPACITY),
            queued_cancellations(*final(self)) == if accepted {
                queued_cancellations(*old(self)).push(sequence)
            } else {
                queued_cancellations(*old(self))
            },
            cancellation_awaited(*final(self)) == (!accepted && cancellation_awaited(*old(self))),
    {
        self.inner.try_send(sequence).is_ok()
    }

    /// `Channel::try_receive`: the oldest message comes out, if there is one.
    #[verifier::external_body]
    pub(crate) fn try_receive(&mut self) -> (sequence: Option<u32>)
        ensures
            match sequence {
                Some(received) => {
                    &&& queued_cancellations(*old(self)).len() > 0
                    &&& received == queued_cancellations(*old(self))[0]
                    &&& queued_cancellations(*final(self)) == queued_cancellations(
                        *old(self),
                    ).drop_first()
                },
                None => {
                    &&& queued_cancellations(*old(self)).len() == 0
                    &&& queued_cancellations(*final(self)) == queued_cancellations(*old(self))
                },
            },
            cancellation_awaited(*final(self)) == cancellation_awaited(*old(self)),
    {
        self.inner.try_receive().ok()
    }

    /// `Channel::is_empty`: whether nothing is queued.
    #[verifier::external_body]
    pub(crate) fn is_empty(&self) -> (empty: bool)
        ensures
            empty == (queued_cancellations(*self).len() == 0),
    {
        self.inner.is_empty()
    }

    /// `Channel::poll_ready_to_receive`: whether something is queued. The task of
    /// `cx` is registered either way.
    #[verifier::external_body]
    pub(crate) fn poll_ready_to_receive(&mut self, cx: &mut Context<'_>) -> (ready: bool)
        ensures
            ready == (queued_cancellations(*old(self)).len() > 0),
            queued_cancellations(*final(self)) == queued_cancellations(*old(self)),
            cancellation_awaited(*final(self)),
    {
        self.inner.poll_ready_to_receive(cx).is_ready()
    }
}

/// The completion slot, an `embassy_sync::signal::Signal`.
#[verifier::external_body]
pub struct CompletionSignal {
    inner: Signal<CriticalSectionRawMutex, Completion>,
}

/// The completion that was signalled and not taken yet.
pub uninterp spec fn signalled_completion(signal: CompletionSignal) -> Option<Completion>;

/// A task is registered to be woken by the next completion.
pub uninterp spec fn completion_awaited(signal: CompletionSignal) -> bool;

impl CompletionSignal {
    /// The completion that was signalled and not taken yet.
    pub open spec fn view(&self) -> Option<Completion> {
        signalled_completion(*self)
    }

    /// `Signal::new`: nothing is signalled, and no task waits for it.
    #[verifier::external_body]
    pub(crate) fn new() -> (signal: Self)
        ensures
            signalled_completion(signal) is None,
            !completion_awaited(signal),
    {
        CompletionSignal { inner: Signal::new() }
    }

    /// `Signal::signal`: the value replaces whatever was signalled, and the task
    /// that waits for it is woken.
    #[verifier::external_body]
    pub(crate) fn signal(&mut self, completion: Completion)
        ensures
            signalled_completion(*final(self)) == Some(completion),
            !completion_awaited(*final(self)),
    {
        self.inner.signal(completion);
    }

    /// One poll of `Signal::wait`: a signalled value is taken out. Otherwise
    /// the task of `cx` is registered.
    #[verifier::external_body]
    pub(crate) fn poll_wait(&mut self, cx: &mut Context<'_>) -> (state: PollState<Completion>)
        ensures
            state == match signalled_completion(*old(self)) {
                Some(completion) => PollState::Ready(completion),
                None => PollState::Pending,
            },
            signalled_completion(*final(self)) is None,
            completion_awaited(*final(self)) == (state is Pending),
    {
        match Box::pin(self.inner.wait()).as_mut().poll(cx) {
            Poll::Ready(completion) => PollState::Ready(completion),
            Poll::Pending => PollState::Pending,
        }
    }
}

/// The lifecycle cancellation slot, an `embassy_sync::signal::Signal`.
#[verifier::external_body]
pub struct LifecycleSignal {
    inner: Signal<CriticalSectionRawMutex, LifecycleId>,
}

/// The cancellation that was signalled and not taken yet.
pub uninterp spec fn signalled_cancellation(signal: LifecycleSignal) -> Option<LifecycleId>;

impl LifecycleSignal {
    /// The cancellation that was signalled and not taken yet.
    pub open spec fn view(&self) -> Option<LifecycleId> {
        signalled_cancellation(*self)
    }

    /// `Signal::new`: nothing is signalled.
    #[verifier::external_body]
    pub(crate) fn new() -> (signal: Self)
        ensures
            signalled_cancellation(signal) is None,
    {
        LifecycleSignal { inner: Signal::new() }
    }

    /// `Signal::signal`: the value replaces whatever was signalled. No task waits
    /// on this signal.
    #[verifier::external_body]
    pub(crate) fn signal(&mut self, id: LifecycleId)
        ensures
            signalled_cancellation(*final(self)) == Some(id),
    {
        self.inner.signal(id);
    }

    /// `Signal::try_take`: a signalled value is taken out.
    #[verifier::external_body]
    pub(crate) fn try_take(&mut self) -> (id: Option<LifecycleId>)
        ensures
            id == signalled_cancellation(*old(self)),
            signalled_cancellation(*final(self)) is None,
    {
        self.inner.try_take()
    }
}

/// `embassy_sync::waitqueue::WakerRegistration`, the slot for one waiting task.
///
/// The type is opaque but for whether the slot is taken: which task waits is no
/// part of any contract.
#[verifier::external_type_specification]
#[verifier::external_body]
pub struct ExWakerRegistration(WakerRegistration);

/// A task is registered in the slot.
pub uninterp spec fn waker_registered(registration: WakerRegistration) -> bool;

/// `WakerRegistration::new`: a slot without a task.
pub assume_specification[ WakerRegistration::new ]() -> (registration: WakerRegistration)
    ensures
        !waker_registered(registration),
;

/// `WakerRegistration::wake`: the slot is cleared. The task that was in it is
/// woken; no clause speaks of the task.
pub assume_specification[ WakerRegistration::wake ](registration: &mut WakerRegistration)
    ensures
        !waker_registered(*final(registration)),
;

/// `WakerRegistration::register` with the waker of `cx`: the slot holds that
/// task. No clause speaks of which task it is.
#[verifier::external_body]
pub(crate) fn register_waker(registration: &mut WakerRegistration, cx: &mut Context<'_>)
    ensures
        waker_registered(*final(registration)),
{
    registration.register(cx.waker());
}

} // verus!
