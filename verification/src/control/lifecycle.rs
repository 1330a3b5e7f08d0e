//! Generation-tagged ownership of one active protocol lifecycle.

use core::marker::PhantomData;
use core::task::Context;

use embassy_sync::waitqueue::WakerRegistration;
use vstd::prelude::*;

use crate::incremental::PollState;
use crate::transport::LifecycleSignal;

verus! {

/// Generation-tagged identity for one active protocol lifecycle.
#[derive(Clone, Copy, Debug, PartialEq, Eq, Hash, Structural)]
pub struct LifecycleId {
    value: u32,
}

impl LifecycleId {
    /// The generation.
    pub closed spec fn view(&self) -> u32 {
        self.value
    }

    /// The identity of this generation.
    pub closed spec fn of(value: u32) -> Self {
        LifecycleId { value }
    }

    #[verifier::type_invariant]
    spec fn wf(self) -> bool {
        self.value != 0
    }

    /// Return the stable non-zero representation.
    pub fn get(self) -> (raw: u32)
        ensures
            raw == self@,
            raw != 0,
    {
        proof {
            use_type_invariant(&self);
        }
        self.value
    }
}

/// A lifecycle identity is exactly its generation.
pub proof fn lifecycle_id_is_its_generation(id: LifecycleId, value: u32)
    ensures
        LifecycleId::of(value)@ == value,
        LifecycleId::of(id@) == id,
{
}

/// Where a lifecycle stands.
#[derive(Clone, Copy, Debug, PartialEq, Eq, Structural)]
pub enum LifecyclePhase {
    /// No generation owns the lifecycle.
    Idle,
    /// A start request is under way.
    Starting(LifecycleId),
    /// The lifecycle is active.
    Active(LifecycleId),
    /// Cancellation was requested.
    Cancelling {
        /// Generation being cancelled.
        id: LifecycleId,
        /// A guard waits for the terminal result.
        waiter_attached: bool,
    },
    /// The terminal result awaits its waiter.
    Terminal(LifecycleId),
}

/// A lifecycle cannot begin or transition from its current state.
#[derive(Clone, Copy, Debug, PartialEq, Eq, Structural)]
pub enum LifecycleStateError {
    /// Another generation still owns the lifecycle.
    Busy,
    /// The supplied handle belongs to an older or unrelated generation.
    Stale,
    /// The requested transition is invalid for the current phase.
    InvalidTransition,
}

/// Error returned by an explicit lifecycle stop.
#[derive(Clone, Copy, Debug, PartialEq, Eq)]
pub enum LifecycleStopError<E> {
    /// The guard no longer names the current lifecycle generation.
    Stale,
    /// The backend rejected or failed the stop operation.
    Backend(E),
}

/// Everything that the runner and the guard of a lifecycle share.
pub struct LifecycleModel<E> {
    /// The runner capability has been handed out.
    pub claimed: bool,
    /// Last generation handed out, zero before the first.
    pub generation: u32,
    /// Where the lifecycle stands.
    pub phase: LifecyclePhase,
    /// Cancellation waiting for the runner.
    pub cancellation: Option<LifecycleId>,
    /// Terminal result waiting for the guard.
    pub terminal: Option<(LifecycleId, Result<(), E>)>,
}

impl<E> LifecycleModel<E> {
    /// The generation `id` can be cancelled.
    pub open spec fn cancellable(self, id: LifecycleId) -> bool {
        self.phase == LifecyclePhase::Starting(id) || self.phase == LifecyclePhase::Active(id)
    }

    /// The generation `id` is being cancelled.
    pub open spec fn cancelling(self, id: LifecycleId) -> bool {
        self.phase matches LifecyclePhase::Cancelling { id: current, .. } && current == id
    }

    /// A request to cancel `id` is accepted: the generation is current and was
    /// started.
    pub open spec fn accepts_cancel(self, id: LifecycleId) -> bool {
        self.cancellable(id) || self.cancelling(id) || self.phase == LifecyclePhase::Terminal(id)
    }

    /// The state after a request to cancel `id`: the first one is signalled to
    /// the runner, a repeated or stale one changes nothing.
    pub open spec fn cancel_requested(self, id: LifecycleId, waiter_attached: bool) -> Self {
        if self.cancellable(id) {
            LifecycleModel {
                phase: LifecyclePhase::Cancelling { id, waiter_attached },
                cancellation: Some(id),
                ..self
            }
        } else {
            self
        }
    }

    /// The state after the waiter of `id` went away.
    pub open spec fn detached(self, id: LifecycleId) -> Self {
        if self.phase == (LifecyclePhase::Cancelling { id, waiter_attached: true }) {
            LifecycleModel {
                phase: LifecyclePhase::Cancelling { id, waiter_attached: false },
                ..self
            }
        } else if self.phase == LifecyclePhase::Terminal(id) {
            LifecycleModel { phase: LifecyclePhase::Idle, terminal: None, ..self }
        } else {
            self
        }
    }

    /// The state after the backend result of a cancelled `id`.
    pub open spec fn finished(self, id: LifecycleId, result: Result<(), E>) -> Self {
        match self.phase {
            LifecyclePhase::Cancelling { id: current, waiter_attached } if current == id =>
            if waiter_attached {
                LifecycleModel {
                    phase: LifecyclePhase::Terminal(id),
                    terminal: Some((id, result)),
                    ..self
                }
            } else {
                LifecycleModel { phase: LifecyclePhase::Idle, ..self }
            },
            _ => self,
        }
    }

    /// The generation that owns the lifecycle, if one does.
    pub open spec fn owner(self) -> Option<LifecycleId> {
        match self.phase {
            LifecyclePhase::Idle => None,
            LifecyclePhase::Starting(id) => Some(id),
            LifecyclePhase::Active(id) => Some(id),
            LifecyclePhase::Cancelling { id, .. } => Some(id),
            LifecyclePhase::Terminal(id) => Some(id),
        }
    }

    /// The state after `guard` was let go: a waiter is detached, and a guard
    /// without one asks for a cancellation.
    pub open spec fn released(self, guard: GuardModel) -> Self {
        if guard.over {
            self
        } else if guard.cancel_requested {
            self.detached(guard.id)
        } else {
            self.cancel_requested(guard.id, false)
        }
    }

    /// The state after the start of `id` was confirmed.
    pub open spec fn activated(self, id: LifecycleId) -> Self {
        LifecycleModel { phase: LifecyclePhase::Active(id), ..self }
    }

    /// Nothing has happened.
    pub open spec fn fresh() -> Self {
        LifecycleModel {
            claimed: false,
            generation: 0,
            phase: LifecyclePhase::Idle,
            cancellation: None,
            terminal: None,
        }
    }

    /// The state after a fresh generation was reserved.
    pub open spec fn begun(self) -> Self {
        let generation = crate::incremental::next_generation(self.generation);
        LifecycleModel {
            generation,
            phase: LifecyclePhase::Starting(LifecycleId::of(generation)),
            ..self
        }
    }
}

/// Caller-owned state for one generation-tagged active lifecycle.
///
/// The state has one runner owner and at most one active guard. Releasing the
/// guard submits a nonblocking best-effort cancellation. Calling
/// [`LifecycleGuard::stop`] keeps a waiter attached until the runner publishes
/// the terminal backend result.
pub struct LifecycleState<E> {
    claimed: bool,
    next_generation: u32,
    phase: LifecyclePhase,
    cancellation: LifecycleSignal,
    terminal: Option<(LifecycleId, Result<(), E>)>,
    waiter: WakerRegistration,
}

impl<E> LifecycleState<E> {
    /// Everything shared.
    pub closed spec fn view(&self) -> LifecycleModel<E> {
        LifecycleModel {
            claimed: self.claimed,
            generation: self.next_generation,
            phase: self.phase,
            cancellation: self.cancellation@,
            terminal: self.terminal,
        }
    }

    /// A stopping guard is registered to be woken by the backend result.
    pub closed spec fn awaited(&self) -> bool {
        crate::transport::waker_registered(self.waiter)
    }

    /// Construct unclaimed lifecycle storage.
    pub fn new() -> (state: Self)
        ensures
            !state.awaited(),
            state@ == LifecycleModel::<E>::fresh(),
    {
        LifecycleState {
            claimed: false,
            next_generation: 0,
            phase: LifecyclePhase::Idle,
            cancellation: LifecycleSignal::new(),
            terminal: None,
            waiter: WakerRegistration::new(),
        }
    }

    /// Claim the unique runner capability.
    pub fn claim(&mut self) -> (runner: Option<LifecycleRunner<E>>)
        ensures
            runner is Some <==> !old(self)@.claimed,
            final(self)@ == (LifecycleModel { claimed: true, ..old(self)@ }),
            final(self).awaited() == old(self).awaited(),
    {
        if self.claimed {
            return None;
        }
        self.claimed = true;
        Some(LifecycleRunner { marker: PhantomData })
    }

    fn request_cancel(&mut self, id: LifecycleId, waiter_attached: bool) -> (result: Result<
        (),
        LifecycleStateError,
    >)
        ensures
            final(self)@ == old(self)@.cancel_requested(id, waiter_attached),
            result is Ok <==> old(self)@.accepts_cancel(id),
            result matches Err(error) ==> error == LifecycleStateError::Stale,
            final(self).awaited() == old(self).awaited(),
    {
        let first = match self.phase {
            LifecyclePhase::Starting(current) | LifecyclePhase::Active(current) => {
                if current != id {
                    return Err(LifecycleStateError::Stale);
                }
                self.phase = LifecyclePhase::Cancelling { id, waiter_attached };
                true
            },
            LifecyclePhase::Cancelling { id: current, .. } => {
                if current != id {
                    return Err(LifecycleStateError::Stale);
                }
                false
            },
            LifecyclePhase::Terminal(current) => {
                if current != id {
                    return Err(LifecycleStateError::Stale);
                }
                false
            },
            LifecyclePhase::Idle => {
                return Err(LifecycleStateError::Stale);
            },
        };
        if first {
            self.cancellation.signal(id);
        }
        Ok(())
    }

    fn detach_waiter(&mut self, id: LifecycleId)
        ensures
            final(self)@ == old(self)@.detached(id),
            final(self).awaited() == old(self).awaited(),
    {
        match self.phase {
            LifecyclePhase::Cancelling { id: current, waiter_attached } => {
                if waiter_attached && current == id {
                    self.phase = LifecyclePhase::Cancelling { id, waiter_attached: false };
                }
            },
            LifecyclePhase::Terminal(current) => {
                if current == id {
                    self.terminal = None;
                    self.phase = LifecyclePhase::Idle;
                }
            },
            _ => {},
        }
    }

    fn acknowledge_terminal(&mut self, id: LifecycleId) -> (result: Result<(), LifecycleStateError>)
        ensures
            if old(self)@.phase == LifecyclePhase::Terminal(id) {
                &&& result is Ok
                &&& final(self)@ == (LifecycleModel { phase: LifecyclePhase::Idle, ..old(self)@ })
            } else {
                &&& result is Err
                &&& result->Err_0 == LifecycleStateError::Stale
                &&& final(self)@ == old(self)@
            },
            final(self).awaited() == old(self).awaited(),
    {
        if self.phase == LifecyclePhase::Terminal(id) {
            self.phase = LifecyclePhase::Idle;
            Ok(())
        } else {
            Err(LifecycleStateError::Stale)
        }
    }
}

impl<E> Default for LifecycleState<E> {
    fn default() -> (state: Self)
        ensures
            !state.awaited(),
            state@ == LifecycleModel::<E>::fresh(),
    {
        Self::new()
    }
}

/// Unique runner-side lifecycle state-machine capability.
pub struct LifecycleRunner<E> {
    marker: PhantomData<E>,
}

impl<E> LifecycleRunner<E> {
    /// Reserve a fresh generation before submitting a backend start request.
    pub fn begin(&mut self, state: &mut LifecycleState<E>) -> (result: Result<
        LifecycleId,
        LifecycleStateError,
    >)
        ensures
            match result {
                Ok(id) => {
                    &&& old(state)@.phase == LifecyclePhase::Idle
                    &&& final(state)@ == old(state)@.begun()
                    &&& id == LifecycleId::of(final(state)@.generation)
                },
                Err(error) => {
                    &&& old(state)@.phase != LifecyclePhase::Idle
                    &&& error == LifecycleStateError::Busy
                    &&& final(state)@ == old(state)@
                },
            },
            final(state).awaited() == old(state).awaited(),
    {
        if state.phase != LifecyclePhase::Idle {
            return Err(LifecycleStateError::Busy);
        }
        state.next_generation = state.next_generation.wrapping_add(1);
        if state.next_generation == 0 {
            state.next_generation = 1;
        }
        let id = LifecycleId { value: state.next_generation };
        state.phase = LifecyclePhase::Starting(id);
        Ok(id)
    }

    /// Abort a start request that the backend rejected synchronously.
    pub fn abort_start(&mut self, state: &mut LifecycleState<E>, id: LifecycleId) -> (result: Result<
        (),
        LifecycleStateError,
    >)
        ensures
            if old(state)@.phase == LifecyclePhase::Starting(id) {
                &&& result is Ok
                &&& final(state)@ == (LifecycleModel { phase: LifecyclePhase::Idle, ..old(state)@ })
            } else {
                &&& result is Err
                &&& result->Err_0 == LifecycleStateError::Stale
                &&& final(state)@ == old(state)@
            },
            final(state).awaited() == old(state).awaited(),
    {
        if state.phase == LifecyclePhase::Starting(id) {
            state.phase = LifecyclePhase::Idle;
            Ok(())
        } else {
            Err(LifecycleStateError::Stale)
        }
    }

    /// Convert the matching backend start callback into the unique active guard.
    pub fn activate(&mut self, state: &mut LifecycleState<E>, id: LifecycleId) -> (result: Result<
        LifecycleGuard<E>,
        LifecycleStateError,
    >)
        ensures
            match result {
                Ok(guard) => {
                    &&& old(state)@.phase == LifecyclePhase::Starting(id)
                    &&& guard@ == GuardModel::fresh(id)
                    &&& final(state)@ == old(state)@.activated(id)
                },
                Err(error) => {
                    &&& old(state)@.phase != LifecyclePhase::Starting(id)
                    &&& error == LifecycleStateError::Stale
                    &&& final(state)@ == old(state)@
                },
            },
            final(state).awaited() == old(state).awaited(),
    {
        if state.phase == LifecyclePhase::Starting(id) {
            state.phase = LifecyclePhase::Active(id);
            Ok(
                LifecycleGuard {
                    id,
                    cancel_requested: false,
                    terminal_consumed: false,
                    marker: PhantomData,
                },
            )
        } else {
            Err(LifecycleStateError::Stale)
        }
    }

    /// Take one cancellation request without waiting.
    pub fn try_take_cancel(&mut self, state: &mut LifecycleState<E>) -> (id: Option<LifecycleId>)
        ensures
            id == old(state)@.cancellation,
            final(state)@ == (LifecycleModel { cancellation: None, ..old(state)@ }),
            final(state).awaited() == old(state).awaited(),
    {
        state.cancellation.try_take()
    }

    /// Publish the terminal result of the matching backend stop operation, and
    /// wake the guard that waits for it.
    pub fn finish(
        &mut self,
        state: &mut LifecycleState<E>,
        id: LifecycleId,
        result: Result<(), E>,
    ) -> (outcome: Result<(), LifecycleStateError>)
        ensures
            final(state)@ == old(state)@.finished(id, result),
            outcome is Ok <==> old(state)@.cancelling(id),
            outcome matches Err(error) ==> error == LifecycleStateError::Stale,
            final(state).awaited() == (old(state).awaited() && old(state)@.phase != (
            LifecyclePhase::Cancelling { id, waiter_attached: true })),
    {
        match state.phase {
            LifecyclePhase::Cancelling { id: current, waiter_attached } => {
                if current != id {
                    return Err(LifecycleStateError::Stale);
                }
                if waiter_attached {
                    state.phase = LifecyclePhase::Terminal(id);
                    state.terminal = Some((id, result));
                    state.waiter.wake();
                } else {
                    state.phase = LifecyclePhase::Idle;
                }
                Ok(())
            },
            _ => Err(LifecycleStateError::Stale),
        }
    }
}

/// What a guard knows of its lifecycle.
pub struct GuardModel {
    /// Generation of the lifecycle.
    pub id: LifecycleId,
    /// Cancellation was requested and its result is waited for.
    pub cancel_requested: bool,
    /// The result was taken, or the guard was found stale or released.
    pub over: bool,
}

impl GuardModel {
    /// The guard of a lifecycle that was just activated.
    pub open spec fn fresh(id: LifecycleId) -> Self {
        GuardModel { id, cancel_requested: false, over: false }
    }
}

/// Unique active lifecycle token.
///
/// A guard that is not over is released before it is let go.
#[must_use]
pub struct LifecycleGuard<E> {
    id: LifecycleId,
    cancel_requested: bool,
    terminal_consumed: bool,
    marker: PhantomData<E>,
}

/// What one poll of a stop does to the shared state and the guard, and what it
/// returns.
pub open spec fn stop_polls<E>(
    pre: GuardModel,
    before: LifecycleModel<E>,
    post: GuardModel,
    after: LifecycleModel<E>,
    result: PollState<Result<(), LifecycleStopError<E>>>,
) -> bool {
    if !pre.cancel_requested && !before.accepts_cancel(pre.id) {
        &&& result matches PollState::Ready(Err(error)) && error is Stale
        &&& post == (GuardModel { over: true, ..pre })
        &&& after == before
    } else {
        let waiting = if pre.cancel_requested {
            before
        } else {
            before.cancel_requested(pre.id, true)
        };
        match waiting.terminal {
            None => {
                &&& result is Pending
                &&& post == (GuardModel { cancel_requested: true, ..pre })
                &&& after == waiting
            },
            Some((id, terminal)) => {
                &&& post == (GuardModel { cancel_requested: true, over: true, ..pre })
                &&& if id == pre.id && waiting.phase == LifecyclePhase::Terminal(id) {
                    &&& after == (LifecycleModel {
                        phase: LifecyclePhase::Idle,
                        terminal: None,
                        ..waiting
                    })
                    &&& result == PollState::Ready(
                        match terminal {
                            Ok(_) => Ok(()),
                            Err(error) => Err(LifecycleStopError::Backend(error)),
                        },
                    )
                } else {
                    &&& after == (LifecycleModel { terminal: None, ..waiting })
                    &&& result matches PollState::Ready(Err(error)) && error is Stale
                }
            },
        }
    }
}

impl<E> LifecycleGuard<E> {
    /// What the guard knows.
    pub closed spec fn view(&self) -> GuardModel {
        GuardModel {
            id: self.id,
            cancel_requested: self.cancel_requested,
            over: self.terminal_consumed,
        }
    }

    /// Identity shared by start, cancellation, and terminal observations.
    pub fn id(&self) -> (id: LifecycleId)
        ensures
            id == self@.id,
    {
        self.id
    }

    /// Whether the result was taken, or the guard was found stale or released.
    pub fn is_over(&self) -> (over: bool)
        ensures
            over == self@.over,
    {
        self.terminal_consumed
    }

    /// Request cancellation and wait for the runner's backend result.
    ///
    /// A stop is not polled again once it is over.
    pub fn stop(&mut self, state: &mut LifecycleState<E>, cx: &mut Context<'_>) -> (result: PollState<
        Result<(), LifecycleStopError<E>>,
    >)
        requires
            !old(self)@.over,
        ensures
            stop_polls(old(self)@, old(state)@, final(self)@, final(state)@, result),
            final(state).awaited() == (result is Pending || old(state).awaited()),
    {
        if !self.cancel_requested {
            if state.request_cancel(self.id, true).is_err() {
                self.terminal_consumed = true;
                return PollState::Ready(Err(LifecycleStopError::Stale));
            }
            self.cancel_requested = true;
        }
        match state.terminal.take() {
            None => {
                crate::transport::register_waker(&mut state.waiter, cx);
                PollState::Pending
            },
            Some((id, terminal)) => {
                self.terminal_consumed = true;
                if id != self.id || state.acknowledge_terminal(self.id).is_err() {
                    return PollState::Ready(Err(LifecycleStopError::Stale));
                }
                match terminal {
                    Ok(()) => PollState::Ready(Ok(())),
                    Err(error) => PollState::Ready(Err(LifecycleStopError::Backend(error))),
                }
            },
        }
    }

    /// Let the lifecycle go: detach a waiter, or request a best-effort
    /// cancellation without one.
    pub fn release(&mut self, state: &mut LifecycleState<E>)
        ensures
            final(self)@ == (GuardModel { over: true, ..old(self)@ }),
            final(state)@ == old(state)@.released(old(self)@),
            final(state).awaited() == old(state).awaited(),
    {
        if self.terminal_consumed {
            return;
        }
        if self.cancel_requested {
            state.detach_waiter(self.id);
        } else {
            let _ = state.request_cancel(self.id, false);
        }
        self.terminal_consumed = true;
    }
}

/// An explicit stop returns what the backend returned and frees the lifecycle:
/// once the runner has finished the cancelled generation, the next poll of the
/// stop is over.
pub proof fn stop_returns_the_backend_result<E>(
    guard: GuardModel,
    state: LifecycleModel<E>,
    result: Result<(), E>,
    post: GuardModel,
    after: LifecycleModel<E>,
    answer: PollState<Result<(), LifecycleStopError<E>>>,
)
    requires
        guard.cancel_requested,
        state.phase == (LifecyclePhase::Cancelling { id: guard.id, waiter_attached: true }),
        stop_polls(guard, state.finished(guard.id, result), post, after, answer),
    ensures
        after.phase == LifecyclePhase::Idle,
        after.terminal is None,
        post.over,
        answer == PollState::Ready(
            match result {
                Ok(_) => Ok(()),
                Err(error) => Err(LifecycleStopError::Backend(error)),
            },
        ),
{
}

/// A waiter that goes away does not strand the lifecycle: whether it is
/// released before or after the backend result came, the lifecycle is idle
/// afterwards and no result is left behind.
pub proof fn released_waiter_does_not_strand<E>(
    state: LifecycleModel<E>,
    id: LifecycleId,
    result: Result<(), E>,
)
    requires
        state.phase == (LifecyclePhase::Cancelling { id, waiter_attached: true }),
        state.terminal is None,
    ensures
        state.detached(id).finished(id, result).phase == LifecyclePhase::Idle,
        state.detached(id).finished(id, result).terminal is None,
        state.finished(id, result).detached(id).phase == LifecyclePhase::Idle,
        state.finished(id, result).detached(id).terminal is None,
{
}

/// A guard that is let go without a stop asks the runner to cancel, and the
/// backend result then frees the lifecycle without a waiter.
pub proof fn released_guard_is_cancelled<E>(
    state: LifecycleModel<E>,
    id: LifecycleId,
    result: Result<(), E>,
)
    requires
        state.phase == LifecyclePhase::Active(id),
    ensures
        state.cancel_requested(id, false).cancellation == Some(id),
        state.cancel_requested(id, false).finished(id, result).phase == LifecyclePhase::Idle,
        state.cancel_requested(id, false).finished(id, result).terminal == state.terminal,
{
}

/// An older generation changes nothing: while another one owns the lifecycle,
/// cancelling, detaching, and finishing it leave the state as it is.
pub proof fn stale_generation_changes_nothing<E>(
    state: LifecycleModel<E>,
    id: LifecycleId,
    waiter_attached: bool,
    result: Result<(), E>,
)
    requires
        !state.accepts_cancel(id),
    ensures
        state.cancel_requested(id, waiter_attached) == state,
        state.detached(id) == state,
        state.finished(id, result) == state,
{
}

/// A fresh generation differs from the one before it.
pub proof fn fresh_generation_differs<E>(state: LifecycleModel<E>)
    ensures
        state.begun().generation != state.generation,
        state.begun().generation != 0,
        LifecycleId::of(state.begun().generation) != LifecycleId::of(state.generation),
{
}

/// `guard` holds the lifecycle: it is active, or being stopped with the guard
/// waiting, or its result waits for the guard.
pub open spec fn attached<E>(state: LifecycleModel<E>, guard: GuardModel) -> bool {
    &&& !guard.over
    &&& if guard.cancel_requested {
        ||| state.terminal is None && state.phase == (LifecyclePhase::Cancelling {
            id: guard.id,
            waiter_attached: true,
        })
        ||| state.phase == LifecyclePhase::Terminal(guard.id) && (
        state.terminal matches Some(terminal) && terminal.0 == guard.id)
    } else {
        state.phase == LifecyclePhase::Active(guard.id) && state.terminal is None
    }
}

/// A guard that holds the lifecycle never goes stale: a stop keeps it attached
/// until the backend result came and then leaves the lifecycle idle, and
/// nothing that the runner finishes or reserves takes it away.
pub proof fn attached_guard_is_never_stale<E>(
    state: LifecycleModel<E>,
    guard: GuardModel,
    post: GuardModel,
    after: LifecycleModel<E>,
    answer: PollState<Result<(), LifecycleStopError<E>>>,
    id: LifecycleId,
    result: Result<(), E>,
)
    requires
        attached(state, guard),
        stop_polls(guard, state, post, after, answer),
    ensures
        !(answer matches PollState::Ready(Err(error)) && error is Stale),
        post.over <==> answer is Ready,
        post.over ==> after.phase == LifecyclePhase::Idle && after.terminal is None,
        !post.over ==> attached(after, post),
        attached(state.finished(id, result), guard),
        attached((LifecycleModel { cancellation: None, ..state }), guard),
        state.phase != LifecyclePhase::Idle,
        state.phase != LifecyclePhase::Starting(id),
{
}

/// What a lifecycle and its guard look like in every state that the operations
/// lead to: a guard that is not over holds the lifecycle, and without one the
/// lifecycle is idle, starting, or being cancelled without a waiter, and no
/// result waits.
pub open spec fn orderly<E>(state: LifecycleModel<E>, guard: Option<GuardModel>) -> bool {
    if guard matches Some(held) && !held.over {
        attached(state, guard->Some_0)
    } else {
        &&& state.terminal is None
        &&& state.phase is Idle || state.phase is Starting || (
        state.phase matches LifecyclePhase::Cancelling { waiter_attached, .. } && !waiter_attached)
    }
}

/// New storage is orderly, and every operation of the runner and of the guard
/// that it handed out keeps it so. A lifecycle that is idle or starting therefore
/// holds no result, and activating one gives a guard that holds it.
pub proof fn lifecycle_stays_orderly<E>(
    state: LifecycleModel<E>,
    guard: Option<GuardModel>,
    id: LifecycleId,
    result: Result<(), E>,
    post: GuardModel,
    after: LifecycleModel<E>,
    answer: PollState<Result<(), LifecycleStopError<E>>>,
)
    requires
        orderly(state, guard),
    ensures
        orderly(LifecycleModel::<E>::fresh(), None),
        state.phase is Idle || state.phase is Starting ==> state.terminal is None,
        orderly((LifecycleModel { claimed: true, ..state }), guard),
        state.phase is Idle ==> orderly(state.begun(), guard),
        state.phase == LifecyclePhase::Starting(id) ==> {
            &&& orderly((LifecycleModel { phase: LifecyclePhase::Idle, ..state }), guard)
            &&& orderly(state.activated(id), Some(GuardModel::fresh(id)))
            &&& attached(state.activated(id), GuardModel::fresh(id))
        },
        orderly((LifecycleModel { cancellation: None, ..state }), guard),
        orderly(state.finished(id, result), guard),
        guard matches Some(held) ==> {
            &&& orderly(state.released(held), Some(GuardModel { over: true, ..held }))
            &&& !held.over && stop_polls(held, state, post, after, answer) ==> orderly(
                after,
                Some(post),
            )
        },
{
}

/// A cancellation request is accepted exactly from the generation that owns the
/// lifecycle. The first one moves the lifecycle to its cancellation and signals
/// it to the runner; a repeated one, one after the backend result, and one of
/// another generation change nothing.
pub proof fn cancellation_request_takes_effect_once<E>(
    state: LifecycleModel<E>,
    id: LifecycleId,
    waiter_attached: bool,
    again: bool,
)
    ensures
        state.accepts_cancel(id) <==> state.owner() == Some(id),
        !state.accepts_cancel(id) ==> state.cancel_requested(id, waiter_attached) == state,
        state.phase == LifecyclePhase::Starting(id) || state.phase == LifecyclePhase::Active(id)
            ==> state.cancel_requested(id, waiter_attached) == (LifecycleModel {
            phase: LifecyclePhase::Cancelling { id, waiter_attached },
            cancellation: Some(id),
            ..state
        }),
        state.phase is Cancelling || state.phase is Terminal ==> state.cancel_requested(
            id,
            waiter_attached,
        ) == state,
        state.cancel_requested(id, waiter_attached).cancel_requested(id, again)
            == state.cancel_requested(id, waiter_attached),
{
}

/// The backend result of a started lifecycle is accepted exactly once, after its
/// guard was released or its stop was polled:
/// - before that it is stale and changes nothing;
/// - with the guard released, the result is discarded and a fresh generation can
///   begin at once;
/// - with a stop pending, the lifecycle stays owned until the stop hands the
///   result out, and is idle then;
/// - a stop that is given up leaves the lifecycle idle once the result came.
pub proof fn backend_result_ends_a_started_lifecycle<E>(
    idle: LifecycleModel<E>,
    result: Result<(), E>,
    later: Result<(), E>,
    stopping: GuardModel,
    waiting: LifecycleModel<E>,
    first: PollState<Result<(), LifecycleStopError<E>>>,
    over: GuardModel,
    after: LifecycleModel<E>,
    last: PollState<Result<(), LifecycleStopError<E>>>,
)
    requires
        orderly(idle, None),
        idle.phase is Idle,
    ensures
        ({
            let id = LifecycleId::of(idle.begun().generation);
            let active = idle.begun().activated(id);
            let guard = GuardModel::fresh(id);
            let released = active.released(guard);
            let freed = released.finished(id, result);
            &&& !active.cancelling(id)
            &&& active.finished(id, result) == active
            &&& released.cancelling(id)
            &&& freed.phase is Idle
            &&& freed.terminal is None
            &&& LifecycleId::of(freed.begun().generation) != id
            &&& !freed.cancelling(id)
            &&& freed.finished(id, later) == freed
            &&& stop_polls(guard, active, stopping, waiting, first) ==> {
                let terminal = waiting.finished(id, result);
                let given_up = waiting.released(stopping);
                &&& first is Pending
                &&& waiting.cancelling(id)
                &&& !(terminal.phase is Idle)
                &&& !terminal.cancelling(id)
                &&& terminal.finished(id, later) == terminal
                &&& stop_polls(stopping, terminal, over, after, last) ==> {
                    &&& last == PollState::Ready(
                        match result {
                            Ok(_) => Ok(()),
                            Err(error) => Err(LifecycleStopError::Backend(error)),
                        },
                    )
                    &&& over.over
                    &&& after.phase is Idle
                    &&& after.terminal is None
                }
                &&& given_up.cancelling(id)
                &&& given_up.finished(id, result).phase is Idle
                &&& given_up.finished(id, result).terminal is None
                &&& terminal.released(stopping).phase is Idle
                &&& terminal.released(stopping).terminal is None
            }
        }),
{
}

/// Reserving, activating, and finishing a lifecycle touch what they name and nothing
/// else: the generations count up from one, only the confirmed generation becomes
/// active, and a result waits for a guard exactly where a stop waits for it.
pub proof fn lifecycle_operations_touch_what_they_name<E>(
    state: LifecycleModel<E>,
    id: LifecycleId,
    result: Result<(), E>,
)
    ensures
        state.generation < u32::MAX ==> state.begun().generation == state.generation + 1,
        state.generation == u32::MAX ==> state.begun().generation == 1,
        state.begun().phase matches LifecyclePhase::Starting(reserved) && reserved@
            == state.begun().generation,
        state.begun().cancellation == state.cancellation,
        state.begun().terminal == state.terminal,
        state.activated(id).phase == LifecyclePhase::Active(id),
        state.activated(id).cancellation == state.cancellation,
        state.activated(id).generation == state.generation,
        state.finished(id, result).generation == state.generation,
        state.finished(id, result).cancellation == state.cancellation,
        state.phase == (LifecyclePhase::Cancelling { id, waiter_attached: true })
            ==> state.finished(id, result).terminal == Some((id, result)) && state.finished(
            id,
            result,
        ).phase == LifecyclePhase::Terminal(id),
        state.phase == (LifecyclePhase::Cancelling { id, waiter_attached: false })
            ==> state.finished(id, result).terminal == state.terminal && state.finished(
            id,
            result,
        ).phase is Idle,
        state.detached(id).generation == state.generation,
        state.detached(id).cancellation == state.cancellation,
        state.phase is Active || state.phase is Starting ==> state.detached(id) == state,
{
    lifecycle_id_is_its_generation(id, state.begun().generation);
}

/// What a guard asks for when it is let go: a stop that waits gives its wait up, a
/// guard that never asked asks for a cancellation without waiting, and one that is
/// over asks for nothing.
pub proof fn released_guard_gives_up_its_wait<E>(state: LifecycleModel<E>, guard: GuardModel)
    ensures
        guard.over ==> state.released(guard) == state,
        !guard.over && guard.cancel_requested && state.phase == (LifecyclePhase::Cancelling {
            id: guard.id,
            waiter_attached: true,
        }) ==> {
            &&& state.released(guard).phase == (LifecyclePhase::Cancelling {
                id: guard.id,
                waiter_attached: false,
            })
            &&& state.released(guard).cancellation == state.cancellation
        },
        !guard.over && !guard.cancel_requested && state.phase == LifecyclePhase::Active(guard.id)
            ==> {
            &&& state.released(guard).phase == (LifecyclePhase::Cancelling {
                id: guard.id,
                waiter_attached: false,
            })
            &&& state.released(guard).cancellation == Some(guard.id)
        },
        state.released(guard).generation == state.generation,
        state.released(guard).claimed == state.claimed,
{
}

/// A guard is handed out for the generation that was reserved: the identity reserved
/// is the one that starts, its confirmation makes a guard of that identity, and a
/// second reservation in between is refused as busy.
pub proof fn reserved_generation_becomes_the_guard<E>()
    ensures
        forall|
            runner: &mut LifecycleRunner<E>,
            state: &mut LifecycleState<E>,
            id: LifecycleId,
            confirming: &mut LifecycleRunner<E>,
            later: &mut LifecycleState<E>,
            result: Result<LifecycleGuard<E>, LifecycleStateError>,
        |
            #[trigger] call_ensures(LifecycleRunner::<E>::begin, (runner, state), Ok(id))
                && #[trigger] call_ensures(
                LifecycleRunner::<E>::activate,
                (confirming, later, id),
                result,
            ) && *later == *final(state) ==> {
                &&& state@.phase is Idle
                &&& result matches Ok(guard)
                &&& guard@.id == id
                &&& !guard@.cancel_requested
                &&& !guard@.over
                &&& final(later)@.phase == LifecyclePhase::Active(id)
            },
        forall|
            runner: &mut LifecycleRunner<E>,
            state: &mut LifecycleState<E>,
            id: LifecycleId,
            again: &mut LifecycleRunner<E>,
            later: &mut LifecycleState<E>,
            result: Result<LifecycleId, LifecycleStateError>,
        |
            #[trigger] call_ensures(LifecycleRunner::<E>::begin, (runner, state), Ok(id))
                && #[trigger] call_ensures(LifecycleRunner::<E>::begin, (again, later), result)
                && *later == *final(state) ==> result == Err::<LifecycleId, LifecycleStateError>(
                LifecycleStateError::Busy,
            ) && final(later)@ == later@,
{
}

/// A guard that is let go is cancelled by the runner: the cancellation taken next is
/// that of its generation, the backend result is accepted, and the lifecycle is idle
/// then.
pub proof fn released_guard_reaches_the_runner<E>()
    ensures
        forall|
            guard: &mut LifecycleGuard<E>,
            state: &mut LifecycleState<E>,
            runner: &mut LifecycleRunner<E>,
            later: &mut LifecycleState<E>,
            taken: Option<LifecycleId>,
            finishing: &mut LifecycleRunner<E>,
            last: &mut LifecycleState<E>,
            result: Result<(), E>,
            outcome: Result<(), LifecycleStateError>,
        |
            #[trigger] call_ensures(LifecycleGuard::<E>::release, (guard, state), ())
                && #[trigger] call_ensures(
                LifecycleRunner::<E>::try_take_cancel,
                (runner, later),
                taken,
            ) && #[trigger] call_ensures(
                LifecycleRunner::<E>::finish,
                (finishing, last, guard@.id, result),
                outcome,
            ) && *later == *final(state) && *last == *final(later) && !guard@.over
                && !guard@.cancel_requested && state@.phase == LifecyclePhase::Active(guard@.id)
                ==> {
                &&& taken == Some(guard@.id)
                &&& outcome is Ok
                &&& final(last)@.phase is Idle
                &&& final(last)@.terminal == state@.terminal
                &&& final(guard)@.over
            },
{
}

/// One poll of a stop changes nothing but what the stop is about: it hands out the
/// result of its own generation, drops a result of another one, keeps waiting while
/// there is none, and never moves the generation.
pub proof fn stop_takes_only_its_own_result<E>(
    pre: GuardModel,
    before: LifecycleModel<E>,
    post: GuardModel,
    after: LifecycleModel<E>,
    result: PollState<Result<(), LifecycleStopError<E>>>,
)
    requires
        stop_polls(pre, before, post, after, result),
    ensures
        post.id == pre.id,
        after.generation == before.generation,
        after.claimed == before.claimed,
        result is Pending ==> {
            &&& before.terminal is None
            &&& after.terminal is None
            &&& post.cancel_requested
            &&& post.over == pre.over
            &&& !pre.cancel_requested && before.phase == LifecyclePhase::Active(pre.id) ==> {
                &&& after.phase == (LifecyclePhase::Cancelling { id: pre.id, waiter_attached: true })
                &&& after.cancellation == Some(pre.id)
            }
        },
        result is Ready ==> post.over,
        result is Ready && pre.cancel_requested ==> {
            &&& before.terminal is Some
            &&& after.terminal is None
            &&& before.phase == LifecyclePhase::Terminal(pre.id) && before.terminal->Some_0.0
                == pre.id ==> after.phase is Idle
            &&& before.terminal->Some_0.0 != pre.id ==> after.phase == before.phase && (
            result matches PollState::Ready(Err(error)) && error is Stale)
        },
{
}

} // verus!
