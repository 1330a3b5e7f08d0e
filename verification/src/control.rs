//! Bounded controller-to-runner command transport.
//!
//! This module is public only so independently released facade and chip crates
//! can share one implementation. Applications should use protocol handles
//! instead of naming these transport types.
//!
//! As elsewhere in the crate, the state shared by two capabilities is an
//! argument of the operations that touch it.

use core::marker::PhantomData;
use core::task::Context;

use vstd::prelude::*;

pub mod lifecycle;

pub use crate::control::lifecycle::{
    LifecycleGuard, LifecycleId, LifecycleRunner, LifecycleState, LifecycleStateError,
    LifecycleStopError,
};
use crate::incremental::PollState;
use crate::queue::BoundedQueue;

verus! {

/// Conservation snapshot for one bounded unsolicited-event queue.
#[derive(Clone, Copy, Debug, PartialEq, Eq, Structural)]
pub struct EventQueueDiagnostics {
    /// Events accepted from the runner.
    pub accepted: u32,
    /// Events consumed by the protocol handle.
    pub consumed: u32,
    /// Events rejected because the queue was full.
    pub dropped: u32,
    /// Events currently waiting for the protocol handle.
    pub pending: usize,
    /// Largest observed queue occupancy.
    pub high_water: usize,
}

/// An unsolicited event could not enter the bounded queue.
#[derive(Debug)]
pub struct EventPublishError<E> {
    event: E,
}

impl<E> EventPublishError<E> {
    /// The rejected event.
    pub closed spec fn view(&self) -> E {
        self.event
    }

    /// Recover the event rejected by backpressure.
    pub fn into_inner(self) -> (event: E)
        ensures
            event == self@,
    {
        self.event
    }
}

/// The queue and its counters, which wrap.
pub struct EventModel<E> {
    /// The capabilities have been handed out.
    pub claimed: bool,
    /// Events waiting, oldest first.
    pub events: Seq<E>,
    /// Events accepted.
    pub accepted: u32,
    /// Events consumed.
    pub consumed: u32,
    /// Events rejected.
    pub dropped: u32,
    /// Largest occupancy.
    pub high_water: u32,
}

/// One more, wrapping.
pub open spec fn wrapped_next(counter: u32) -> u32 {
    if counter == u32::MAX {
        0
    } else {
        (counter + 1) as u32
    }
}

impl<E> EventModel<E> {
    /// Nothing has happened.
    pub open spec fn fresh() -> Self {
        EventModel {
            claimed: false,
            events: Seq::empty(),
            accepted: 0,
            consumed: 0,
            dropped: 0,
            high_water: 0,
        }
    }

    /// The state after `event` was offered to a queue of `capacity`.
    pub open spec fn offered(self, capacity: nat, event: E) -> Self {
        if self.events.len() < capacity {
            let depth = self.events.push(event).len() as u32;
            EventModel {
                events: self.events.push(event),
                accepted: wrapped_next(self.accepted),
                high_water: crate::state::larger(self.high_water, depth),
                ..self
            }
        } else {
            EventModel { dropped: wrapped_next(self.dropped), ..self }
        }
    }

    /// The state after the oldest event was taken.
    pub open spec fn taken(self) -> Self {
        if self.events.len() > 0 {
            EventModel {
                events: self.events.drop_first(),
                consumed: wrapped_next(self.consumed),
                ..self
            }
        } else {
            self
        }
    }

    /// The state after `n` events were taken.
    pub open spec fn drained(self, n: nat) -> Self
        decreases n,
    {
        if n == 0 {
            self
        } else {
            self.drained((n - 1) as nat).taken()
        }
    }

    /// Every accepted event is consumed or waiting, up to the wrap of the
    /// counters.
    pub open spec fn conserves(self) -> bool {
        (self.accepted - self.consumed - self.events.len()) % 0x1_0000_0000 == 0
    }
}

/// One operation on the event queue.
pub enum EventStep<E> {
    /// The capabilities are claimed.
    Claim,
    /// The producer offers an event.
    Publish(E),
    /// The consumer takes the oldest event, if there is one.
    Take,
}

/// How many of the steps offer an event.
pub open spec fn publications<E>(steps: Seq<EventStep<E>>) -> nat
    decreases steps.len(),
{
    if steps.len() == 0 {
        0
    } else {
        publications(steps.drop_last()) + if steps.last() is Publish {
            1nat
        } else {
            0nat
        }
    }
}

impl<E> EventModel<E> {
    /// The state after one step on a queue of `capacity`.
    pub open spec fn stepped(self, capacity: nat, step: EventStep<E>) -> Self {
        match step {
            EventStep::Claim => EventModel { claimed: true, ..self },
            EventStep::Publish(event) => self.offered(capacity, event),
            EventStep::Take => self.taken(),
        }
    }

    /// The state after `steps` on a queue of `capacity`.
    pub open spec fn after(self, capacity: nat, steps: Seq<EventStep<E>>) -> Self
        decreases steps.len(),
    {
        if steps.len() == 0 {
            self
        } else {
            self.after(capacity, steps.drop_last()).stepped(capacity, steps.last())
        }
    }

    /// The waiting events are within the largest occupancy, and that is within
    /// `capacity`.
    pub open spec fn within(self, capacity: nat) -> bool {
        self.events.len() <= self.high_water <= capacity
    }
}

/// Whatever was claimed, published, and taken so far, in any order:
/// - every accepted event is consumed or waiting, up to the wrap of the counters;
/// - as long as the publications fit the counters, the accepted events are exactly
///   those consumed and waiting, and every publication was accepted or dropped;
/// - as long as the publications or the capacity fit the counters, the waiting
///   events are within the largest occupancy, and that is within the capacity.
pub proof fn reachable_queue_is_bounded_and_counted<E>(capacity: nat, steps: Seq<EventStep<E>>)
    requires
        0 < capacity,
    ensures
        ({
            let reached = EventModel::<E>::fresh().after(capacity, steps);
            &&& reached.conserves()
            &&& publications(steps) <= u32::MAX ==> {
                &&& reached.accepted == reached.consumed + reached.events.len()
                &&& reached.accepted + reached.dropped == publications(steps)
            }
            &&& publications(steps) <= u32::MAX || capacity <= u32::MAX ==> reached.within(capacity)
        }),
    decreases steps.len(),
{
    if steps.len() > 0 {
        let before = EventModel::<E>::fresh().after(capacity, steps.drop_last());
        reachable_queue_is_bounded_and_counted::<E>(capacity, steps.drop_last());
        match steps.last() {
            EventStep::Claim => {},
            EventStep::Publish(event) => events_are_conserved(before, capacity, event),
            EventStep::Take => lemma_taking_conserves(before),
        }
    }
}

proof fn lemma_taking_conserves<E>(model: EventModel<E>)
    requires
        model.conserves(),
    ensures
        model.taken().conserves(),
{
    if model.events.len() > 0 {
        events_are_conserved(model, 0, model.events[0]);
    }
}

/// The event queue is conservative: whatever is offered or taken, every
/// accepted event is either consumed or still waiting.
pub proof fn events_are_conserved<E>(model: EventModel<E>, capacity: nat, event: E)
    requires
        model.conserves(),
    ensures
        EventModel::<E>::fresh().conserves(),
        model.offered(capacity, event).conserves(),
        model.taken().conserves(),
{
    let gap = model.accepted - model.consumed - model.events.len();
    assert(gap % 0x1_0000_0000 == 0);
    assert((gap + 0x1_0000_0000) % 0x1_0000_0000 == 0);
    assert((gap - 0x1_0000_0000) % 0x1_0000_0000 == 0);
}

/// Events come out in the order in which they were accepted: with `n` events
/// waiting, an accepted one is the oldest after `n` were taken. A rejected event
/// changes nothing that waits.
pub proof fn events_keep_their_order<E>(model: EventModel<E>, capacity: nat, event: E)
    ensures
        model.events.len() < capacity ==> model.offered(capacity, event).drained(
            model.events.len(),
        ).events == seq![event],
        model.events.len() >= capacity ==> model.offered(capacity, event).events == model.events,
        forall|n: int|
            0 <= n < model.events.len() ==> #[trigger] model.drained(n as nat).events[0]
                == model.events[n],
{
    if model.events.len() < capacity {
        let offered = model.offered(capacity, event);
        lemma_drained(offered, model.events.len());
        assert(offered.drained(model.events.len()).events =~= seq![event]);
    }
    assert forall|n: int| 0 <= n < model.events.len() implies #[trigger] model.drained(
        n as nat,
    ).events[0] == model.events[n] by {
        lemma_drained(model, n as nat);
    }
}

proof fn lemma_drained<E>(model: EventModel<E>, n: nat)
    requires
        n <= model.events.len(),
    ensures
        model.drained(n).events == model.events.skip(n as int),
    decreases n,
{
    if n == 0 {
        assert(model.events.skip(0) =~= model.events);
    } else {
        let before = (n - 1) as nat;
        lemma_drained(model, before);
        assert(model.events.skip(before as int).drop_first() =~= model.events.skip(n as int));
    }
}

/// Caller-owned state for unsolicited protocol events.
///
/// This queue is deliberately separate from [`ControlState`]: consuming an
/// event can never consume or overwrite a command completion.
pub struct EventState<E, const CAPACITY: usize> {
    claimed: bool,
    events: BoundedQueue<E, CAPACITY>,
    accepted: u32,
    consumed: u32,
    dropped: u32,
    high_water: u32,
}

impl<E, const CAPACITY: usize> EventState<E, CAPACITY> {
    /// The queue and its counters.
    pub closed spec fn view(&self) -> EventModel<E> {
        EventModel {
            claimed: self.claimed,
            events: self.events@,
            accepted: self.accepted,
            consumed: self.consumed,
            dropped: self.dropped,
            high_water: self.high_water,
        }
    }

    /// The consumer is registered to be woken by the next event.
    pub closed spec fn awaited(&self) -> bool {
        self.events.awaited()
    }

    /// The queue can hold an event and is within its bound, and so is the largest
    /// occupancy where its counter can hold the bound.
    pub open spec fn wf(&self) -> bool {
        &&& CAPACITY > 0
        &&& self@.events.len() <= CAPACITY
        &&& CAPACITY <= u32::MAX ==> self@.within(CAPACITY as nat)
    }

    /// Construct unclaimed event storage.
    ///
    /// The queue must be able to hold an event.
    pub fn new() -> (state: Self)
        requires
            CAPACITY > 0,
        ensures
            state.wf(),
            state@ == EventModel::<E>::fresh(),
            !state.awaited(),
    {
        EventState {
            claimed: false,
            events: BoundedQueue::new(),
            accepted: 0,
            consumed: 0,
            dropped: 0,
            high_water: 0,
        }
    }

    /// Split the state into unique runner and protocol capabilities.
    pub fn claim(&mut self) -> (capabilities: Option<
        (EventProducer<E, CAPACITY>, EventConsumer<E, CAPACITY>),
    >)
        requires
            old(self).wf(),
        ensures
            final(self).wf(),
            capabilities is Some <==> !old(self)@.claimed,
            final(self)@ == (EventModel { claimed: true, ..old(self)@ }),
            final(self).awaited() == old(self).awaited(),
    {
        if self.claimed {
            return None;
        }
        self.claimed = true;
        Some((EventProducer { marker: PhantomData }, EventConsumer { marker: PhantomData }))
    }

    fn diagnostics(&self) -> (diagnostics: EventQueueDiagnostics)
        ensures
            diagnostics.accepted == self@.accepted,
            diagnostics.consumed == self@.consumed,
            diagnostics.dropped == self@.dropped,
            diagnostics.pending == self@.events.len(),
            diagnostics.high_water == self@.high_water,
    {
        EventQueueDiagnostics {
            accepted: self.accepted,
            consumed: self.consumed,
            dropped: self.dropped,
            pending: self.events.len(),
            high_water: self.high_water as usize,
        }
    }
}

/// Unique runner-side capability for publishing unsolicited events.
pub struct EventProducer<E, const CAPACITY: usize> {
    marker: PhantomData<E>,
}

impl<E, const CAPACITY: usize> EventProducer<E, CAPACITY> {
    /// Publish one event without blocking the radio runner, and wake the consumer.
    pub fn try_publish(&mut self, state: &mut EventState<E, CAPACITY>, event: E) -> (result: Result<
        (),
        EventPublishError<E>,
    >)
        requires
            old(state).wf(),
        ensures
            final(state).wf(),
            final(state)@ == old(state)@.offered(CAPACITY as nat, event),
            match result {
                Ok(_) => old(state)@.events.len() < CAPACITY && !final(state).awaited(),
                Err(error) => {
                    &&& old(state)@.events.len() == CAPACITY
                    &&& error@ == event
                    &&& final(state).awaited() == old(state).awaited()
                },
            },
    {
        match state.events.try_push(event) {
            Ok(()) => {
                state.accepted = state.accepted.wrapping_add(1);
                let len: usize = state.events.len();
                let depth: u32 = #[verifier::truncate]
                (len as u32);
                if state.high_water < depth {
                    state.high_water = depth;
                }
                Ok(())
            },
            Err(event) => {
                state.dropped = state.dropped.wrapping_add(1);
                Err(EventPublishError { event })
            },
        }
    }

    /// Snapshot event conservation counters.
    pub fn diagnostics(&self, state: &EventState<E, CAPACITY>) -> (diagnostics:
        EventQueueDiagnostics)
        ensures
            diagnostics.accepted == state@.accepted,
            diagnostics.consumed == state@.consumed,
            diagnostics.dropped == state@.dropped,
            diagnostics.pending == state@.events.len(),
            diagnostics.high_water == state@.high_water,
    {
        state.diagnostics()
    }
}

/// Unique protocol-side capability for receiving unsolicited events.
pub struct EventConsumer<E, const CAPACITY: usize> {
    marker: PhantomData<E>,
}

impl<E, const CAPACITY: usize> EventConsumer<E, CAPACITY> {
    /// Take the oldest event without waiting.
    pub fn try_next_event(&mut self, state: &mut EventState<E, CAPACITY>) -> (event: Option<E>)
        requires
            old(state).wf(),
        ensures
            final(state).wf(),
            final(state)@ == old(state)@.taken(),
            match event {
                Some(oldest) => old(state)@.events.len() > 0 && oldest == old(state)@.events[0],
                None => old(state)@.events.len() == 0,
            },
            final(state).awaited() == old(state).awaited(),
    {
        match state.events.try_pop() {
            Some(event) => {
                state.consumed = state.consumed.wrapping_add(1);
                Some(event)
            },
            None => None,
        }
    }

    /// Take the oldest event, or wait for it.
    pub fn next_event(&mut self, state: &mut EventState<E, CAPACITY>, cx: &mut Context<'_>) -> (event:
        PollState<E>)
        requires
            old(state).wf(),
        ensures
            final(state).wf(),
            final(state)@ == old(state)@.taken(),
            match event {
                PollState::Ready(oldest) => {
                    &&& old(state)@.events.len() > 0
                    &&& oldest == old(state)@.events[0]
                    &&& final(state).awaited() == old(state).awaited()
                },
                PollState::Pending => old(state)@.events.len() == 0 && final(state).awaited(),
            },
    {
        match state.events.poll_pop(cx) {
            PollState::Ready(event) => {
                state.consumed = state.consumed.wrapping_add(1);
                PollState::Ready(event)
            },
            PollState::Pending => PollState::Pending,
        }
    }

    /// Snapshot event conservation counters.
    pub fn diagnostics(&self, state: &EventState<E, CAPACITY>) -> (diagnostics:
        EventQueueDiagnostics)
        ensures
            diagnostics.accepted == state@.accepted,
            diagnostics.consumed == state@.consumed,
            diagnostics.dropped == state@.dropped,
            diagnostics.pending == state@.events.len(),
            diagnostics.high_water == state@.high_water,
    {
        state.diagnostics()
    }
}

/// Generation-tagged identity for one accepted control command.
#[derive(Clone, Copy, Debug, PartialEq, Eq, Hash, Structural)]
pub struct ControlId {
    value: u32,
}

impl ControlId {
    /// The number of the identity.
    pub closed spec fn view(&self) -> u32 {
        self.value
    }

    /// The identity with this number.
    pub closed spec fn of(value: u32) -> Self {
        ControlId { value }
    }

    #[verifier::type_invariant]
    spec fn wf(self) -> bool {
        self.value != 0
    }

    /// Validate a raw identity received across an FFI or diagnostic boundary.
    pub fn try_from_raw(raw: u32) -> (id: Option<Self>)
        ensures
            id is Some <==> raw != 0,
            id matches Some(valid) ==> valid == ControlId::of(raw) && valid@ == raw,
    {
        if raw == 0 {
            None
        } else {
            Some(ControlId { value: raw })
        }
    }

    /// Return the stable non-zero representation.
    pub fn get(self) -> (raw: u32)
        ensures
            raw == self@,
            raw != 0,
    {
        proof {
            use_type_invariant(&self);
        }
        self.value
    }
}

/// A control identity is exactly its number.
pub proof fn control_id_is_its_number(id: ControlId, value: u32)
    ensures
        ControlId::of(value)@ == value,
        ControlId::of(id@) == id,
{
}

/// One command whose ownership moved from a controller to its runner.
#[derive(Debug)]
pub struct ControlCommand<C> {
    id: ControlId,
    command: C,
}

impl<C> ControlCommand<C> {
    /// The identity and the command.
    pub closed spec fn view(&self) -> (ControlId, C) {
        (self.id, self.command)
    }

    /// Identity assigned by the unique controller.
    pub fn id(&self) -> (id: ControlId)
        ensures
            id == self@.0,
    {
        self.id
    }

    /// Recover the owned protocol command.
    pub fn into_inner(self) -> (command: C)
        ensures
            command == self@.1,
    {
        self.command
    }
}

/// One terminal result published by the unique runner.
#[derive(Debug)]
pub struct ControlCompletion<R> {
    id: ControlId,
    result: R,
}

impl<R> ControlCompletion<R> {
    /// The identity and the result.
    pub closed spec fn view(&self) -> (ControlId, R) {
        (self.id, self.result)
    }

    /// Pair a result with the identity of its command.
    pub fn new(id: ControlId, result: R) -> (completion: Self)
        ensures
            completion@ == (id, result),
    {
        ControlCompletion { id, result }
    }

    /// Identity of the completed command.
    pub fn id(&self) -> (id: ControlId)
        ensures
            id == self@.0,
    {
        self.id
    }

    /// Recover the owned protocol result.
    pub fn into_inner(self) -> (result: R)
        ensures
            result == self@.1,
    {
        self.result
    }
}

/// Rejected submission that preserves command ownership.
#[derive(Debug)]
pub struct ControlSubmitError<C> {
    command: C,
}

impl<C> ControlSubmitError<C> {
    /// The command that was not accepted.
    pub closed spec fn view(&self) -> C {
        self.command
    }

    /// Recover the command that was not accepted.
    pub fn into_inner(self) -> (command: C)
        ensures
            command == self@,
    {
        self.command
    }
}

/// A completion did not belong to the controller's outstanding command.
#[derive(Debug)]
pub struct StaleControlCompletion<R> {
    expected: Option<ControlId>,
    received: ControlId,
    result: R,
}

impl<R> StaleControlCompletion<R> {
    /// The expected identity, the received one, and the unmatched result.
    pub closed spec fn view(&self) -> (Option<ControlId>, ControlId, R) {
        (self.expected, self.received, self.result)
    }

    /// Identity still owned by the controller.
    pub fn expected(&self) -> (expected: Option<ControlId>)
        ensures
            expected == self@.0,
    {
        self.expected
    }

    /// Unexpected identity supplied by the transport.
    pub fn received(&self) -> (received: ControlId)
        ensures
            received == self@.1,
    {
        self.received
    }

    /// Recover the unmatched result for diagnostics or fail-closed cleanup.
    pub fn into_inner(self) -> (result: R)
        ensures
            result == self@.2,
    {
        self.result
    }
}

/// Runner-side completion failure.
#[derive(Clone, Copy, Debug, PartialEq, Eq, Structural)]
pub enum ControlCompleteErrorKind {
    /// No command is currently owned by the runner.
    NoActiveCommand,
    /// The supplied identity does not match the runner-owned command.
    StaleCommand,
}

/// Rejected runner completion, which preserves result ownership.
#[derive(Debug)]
pub struct ControlCompleteError<R> {
    kind: ControlCompleteErrorKind,
    result: R,
}

impl<R> ControlCompleteError<R> {
    /// The failure class and the unpublished result.
    pub closed spec fn view(&self) -> (ControlCompleteErrorKind, R) {
        (self.kind, self.result)
    }

    /// Stable failure class.
    pub fn kind(&self) -> (kind: ControlCompleteErrorKind)
        ensures
            kind == self@.0,
    {
        self.kind
    }

    /// Recover the result that was not published.
    pub fn into_inner(self) -> (result: R)
        ensures
            result == self@.1,
    {
        self.result
    }
}

/// What a controller and its runner share.
pub struct ControlModel<C, R> {
    /// The capabilities have been handed out.
    pub claimed: bool,
    /// Commands waiting for the runner: at most one.
    pub commands: Seq<(ControlId, C)>,
    /// Completion waiting for the controller.
    pub completion: Option<(ControlId, R)>,
}

/// The last identity handed out and the one outstanding.
pub struct SenderModel {
    /// Last identity number, zero before the first.
    pub last: u32,
    /// Identity of the command that is not answered yet.
    pub outstanding: Option<ControlId>,
}

/// The identity that follows `last`: counting up, skipping zero when the
/// counter wraps.
pub open spec fn next_control_id(last: u32) -> u32 {
    if last == u32::MAX {
        1
    } else {
        (last + 1) as u32
    }
}

/// Caller-owned state shared by one protocol controller and runner.
pub struct ControlState<C, R> {
    claimed: bool,
    commands: BoundedQueue<ControlCommand<C>, 1>,
    completion: Option<ControlCompletion<R>>,
}

impl<C, R> ControlState<C, R> {
    /// What the two sides share.
    pub closed spec fn view(&self) -> ControlModel<C, R> {
        ControlModel {
            claimed: self.claimed,
            commands: self.commands@.map_values(|command: ControlCommand<C>| command@),
            completion: match self.completion {
                Some(completion) => Some(completion@),
                None => None,
            },
        }
    }

    /// The command queue is within its bound.
    pub closed spec fn wf(&self) -> bool {
        self.commands.wf()
    }

    /// Construct unclaimed process-lifetime storage.
    pub fn new() -> (state: Self)
        ensures
            state.wf(),
            state@ == (ControlModel::<C, R> {
                claimed: false,
                commands: Seq::empty(),
                completion: None,
            }),
    {
        let state = ControlState { claimed: false, commands: BoundedQueue::new(), completion: None };
        assert(state@.commands =~= Seq::empty());
        state
    }

    /// Split the state into non-cloneable controller and runner capabilities.
    pub fn claim(&mut self) -> (capabilities: Option<(ControlSender<C, R>, ControlReceiver<C, R>)>)
        requires
            old(self).wf(),
        ensures
            final(self).wf(),
            final(self)@ == (ControlModel { claimed: true, ..old(self)@ }),
            match capabilities {
                Some((sender, receiver)) => {
                    &&& !old(self)@.claimed
                    &&& sender@ == (SenderModel { last: 0, outstanding: None })
                    &&& receiver@ is None
                },
                None => old(self)@.claimed,
            },
    {
        if self.claimed {
            return None;
        }
        self.claimed = true;
        Some(
            (
                ControlSender { next_id: 0, outstanding: None, marker: PhantomData },
                ControlReceiver { active: None, marker: PhantomData },
            ),
        )
    }

    /// Publish `completion`, replacing one that was not taken.
    pub fn signal_completion(&mut self, completion: ControlCompletion<R>)
        requires
            old(self).wf(),
        ensures
            final(self).wf(),
            final(self)@ == (ControlModel { completion: Some(completion@), ..old(self)@ }),
    {
        self.completion = Some(completion);
    }
}

impl<C, R> Default for ControlState<C, R> {
    fn default() -> (state: Self)
        ensures
            state.wf(),
            state@ == (ControlModel::<C, R> {
                claimed: false,
                commands: Seq::empty(),
                completion: None,
            }),
    {
        Self::new()
    }
}

/// Unique protocol-side command capability.
pub struct ControlSender<C, R> {
    next_id: u32,
    outstanding: Option<ControlId>,
    marker: PhantomData<(C, R)>,
}

impl<C, R> ControlSender<C, R> {
    /// The last identity handed out and the one outstanding.
    pub closed spec fn view(&self) -> SenderModel {
        SenderModel { last: self.next_id, outstanding: self.outstanding }
    }

    /// Submit one command without blocking or replacing live work.
    pub fn try_submit(&mut self, state: &mut ControlState<C, R>, command: C) -> (result: Result<
        ControlId,
        ControlSubmitError<C>,
    >)
        requires
            old(state).wf(),
        ensures
            final(state).wf(),
            match result {
                Ok(id) => {
                    &&& old(self)@.outstanding is None
                    &&& old(state)@.commands.len() == 0
                    &&& id == ControlId::of(next_control_id(old(self)@.last))
                    &&& final(self)@ == (SenderModel {
                        last: next_control_id(old(self)@.last),
                        outstanding: Some(id),
                    })
                    &&& final(state)@ == (ControlModel {
                        commands: seq![(id, command)],
                        ..old(state)@
                    })
                },
                Err(error) => {
                    &&& error@ == command
                    &&& final(state)@ == old(state)@
                    &&& if old(self)@.outstanding is Some {
                        final(self)@ == old(self)@
                    } else {
                        &&& old(state)@.commands.len() == 1
                        &&& final(self)@ == (SenderModel {
                            last: next_control_id(old(self)@.last),
                            outstanding: None,
                        })
                    }
                },
            },
    {
        if self.outstanding.is_some() {
            return Err(ControlSubmitError { command });
        }
        let id = self.allocate_id();
        match state.commands.try_push(ControlCommand { id, command }) {
            Ok(()) => {
                self.outstanding = Some(id);
                assert(state@.commands =~= seq![(id, command)]);
                Ok(id)
            },
            Err(refused) => Err(ControlSubmitError { command: refused.command }),
        }
    }

    /// Take the matching terminal completion, if the runner published one.
    pub fn try_take_completion(&mut self, state: &mut ControlState<C, R>) -> (result: Result<
        Option<ControlCompletion<R>>,
        StaleControlCompletion<R>,
    >)
        requires
            old(state).wf(),
        ensures
            final(state).wf(),
            final(state)@ == (ControlModel { completion: None, ..old(state)@ }),
            match old(state)@.completion {
                None => {
                    &&& result is Ok
                    &&& result->Ok_0 is None
                    &&& final(self)@ == old(self)@
                },
                Some(completion) => if old(self)@.outstanding == Some(completion.0) {
                    &&& result is Ok
                    &&& result->Ok_0 matches Some(taken)
                    &&& taken@ == completion
                    &&& final(self)@ == (SenderModel { outstanding: None, ..old(self)@ })
                } else {
                    &&& result is Err
                    &&& result->Err_0@ == (old(self)@.outstanding, completion.0, completion.1)
                    &&& final(self)@ == old(self)@
                },
            },
    {
        let completion = match state.completion.take() {
            Some(completion) => completion,
            None => return Ok(None),
        };
        let expected = match self.outstanding {
            Some(expected) => expected,
            None => {
                return Err(
                    StaleControlCompletion {
                        expected: None,
                        received: completion.id,
                        result: completion.result,
                    },
                );
            },
        };
        if completion.id != expected {
            return Err(
                StaleControlCompletion {
                    expected: Some(expected),
                    received: completion.id,
                    result: completion.result,
                },
            );
        }
        self.outstanding = None;
        Ok(Some(completion))
    }

    /// Identity currently owned by the controller.
    pub fn outstanding(&self) -> (outstanding: Option<ControlId>)
        ensures
            outstanding == self@.outstanding,
    {
        self.outstanding
    }

    fn allocate_id(&mut self) -> (id: ControlId)
        ensures
            id == ControlId::of(next_control_id(old(self)@.last)),
            final(self)@ == (SenderModel {
                last: next_control_id(old(self)@.last),
                ..old(self)@
            }),
    {
        self.next_id = self.next_id.wrapping_add(1);
        if self.next_id == 0 {
            self.next_id = 1;
        }
        ControlId { value: self.next_id }
    }
}

/// Unique runner-side command capability.
pub struct ControlReceiver<C, R> {
    active: Option<ControlId>,
    marker: PhantomData<(C, R)>,
}

impl<C, R> ControlReceiver<C, R> {
    /// Identity of the command that the runner owns.
    pub closed spec fn view(&self) -> Option<ControlId> {
        self.active
    }

    /// Take the oldest command when the runner does not already own one.
    pub fn try_take_command(&mut self, state: &mut ControlState<C, R>) -> (command: Option<
        ControlCommand<C>,
    >)
        requires
            old(state).wf(),
        ensures
            final(state).wf(),
            match command {
                Some(taken) => {
                    &&& old(self)@ is None
                    &&& old(state)@.commands.len() > 0
                    &&& taken@ == old(state)@.commands[0]
                    &&& final(self)@ == Some(taken@.0)
                    &&& final(state)@ == (ControlModel {
                        commands: old(state)@.commands.drop_first(),
                        ..old(state)@
                    })
                },
                None => {
                    &&& old(self)@ is Some || old(state)@.commands.len() == 0
                    &&& final(self)@ == old(self)@
                    &&& final(state)@ == old(state)@
                },
            },
    {
        if self.active.is_some() {
            return None;
        }
        match state.commands.try_pop() {
            Some(command) => {
                self.active = Some(command.id);
                assert(state@.commands =~= old(state)@.commands.drop_first());
                Some(command)
            },
            None => None,
        }
    }

    /// Publish exactly one terminal result for the runner-owned command.
    pub fn complete(&mut self, state: &mut ControlState<C, R>, id: ControlId, result: R) -> (outcome:
        Result<(), ControlCompleteError<R>>)
        requires
            old(state).wf(),
        ensures
            final(state).wf(),
            match outcome {
                Ok(_) => {
                    &&& old(self)@ == Some(id)
                    &&& final(self)@ is None
                    &&& final(state)@ == (ControlModel {
                        completion: Some((id, result)),
                        ..old(state)@
                    })
                },
                Err(error) => {
                    &&& old(self)@ != Some(id)
                    &&& error@ == (
                        if old(self)@ is None {
                            ControlCompleteErrorKind::NoActiveCommand
                        } else {
                            ControlCompleteErrorKind::StaleCommand
                        },
                        result,
                    )
                    &&& final(self)@ == old(self)@
                    &&& final(state)@ == old(state)@
                },
            },
    {
        let active = match self.active {
            Some(active) => active,
            None => {
                return Err(
                    ControlCompleteError {
                        kind: ControlCompleteErrorKind::NoActiveCommand,
                        result,
                    },
                );
            },
        };
        if active != id {
            return Err(
                ControlCompleteError { kind: ControlCompleteErrorKind::StaleCommand, result },
            );
        }
        state.signal_completion(ControlCompletion { id, result });
        self.active = None;
        Ok(())
    }

    /// Identity currently owned by the runner.
    pub fn active(&self) -> (active: Option<ControlId>)
        ensures
            active == self@,
    {
        self.active
    }
}

/// One command, one owner: an outstanding command is either queued, owned by
/// the runner, or completed, and nothing else is in the transport.
pub open spec fn single_owner<C, R>(
    state: ControlModel<C, R>,
    sender: SenderModel,
    receiver: Option<ControlId>,
) -> bool {
    match sender.outstanding {
        None => state.commands.len() == 0 && receiver is None && state.completion is None,
        Some(id) => {
            ||| state.commands.len() == 1 && state.commands[0].0 == id && receiver is None
                && state.completion is None
            ||| state.commands.len() == 0 && receiver == Some(id) && state.completion is None
            ||| state.commands.len() == 0 && receiver is None && (
            state.completion matches Some(completion) && completion.0 == id)
        },
    }
}

/// Freshly claimed capabilities have no command, and every operation of the two
/// sides keeps the single owner. While it holds, a submission is refused only
/// because a command is outstanding, and a completion is never stale.
pub proof fn transport_keeps_a_single_owner<C, R>(
    state: ControlModel<C, R>,
    sender: SenderModel,
    receiver: Option<ControlId>,
    command: C,
    result: R,
)
    requires
        single_owner(state, sender, receiver),
    ensures
        single_owner(
            ControlModel::<C, R> { claimed: true, commands: Seq::empty(), completion: None },
            SenderModel { last: 0, outstanding: None },
            None,
        ),
        sender.outstanding is None ==> {
            let id = ControlId::of(next_control_id(sender.last));
            &&& state.commands.len() == 0
            &&& single_owner(
                ControlModel { commands: seq![(id, command)], ..state },
                SenderModel { last: next_control_id(sender.last), outstanding: Some(id) },
                receiver,
            )
        },
        receiver is None && state.commands.len() > 0 ==> single_owner(
            ControlModel { commands: state.commands.drop_first(), ..state },
            sender,
            Some(state.commands[0].0),
        ),
        receiver matches Some(id) ==> single_owner(
            ControlModel { completion: Some((id, result)), ..state },
            sender,
            None,
        ),
        state.completion matches Some(completion) ==> {
            &&& sender.outstanding == Some(completion.0)
            &&& single_owner(
                ControlModel { completion: None, ..state },
                SenderModel { outstanding: None, ..sender },
                receiver,
            )
        },
{
}

/// An offered event is accepted while there is room and counted as accepted, and
/// otherwise refused and counted as dropped; the high-water mark is the larger of
/// its old value and the occupancy. A taken event is counted as consumed. Nothing
/// else changes.
pub proof fn event_counters_tell_what_happened<E>(model: EventModel<E>, capacity: nat, event: E)
    requires
        capacity <= u32::MAX,
        model.accepted < u32::MAX,
        model.dropped < u32::MAX,
        model.consumed < u32::MAX,
    ensures
        ({
            let offered = model.offered(capacity, event);
            let taken = model.taken();
            &&& model.events.len() < capacity ==> {
                &&& offered.events.len() == model.events.len() + 1
                &&& offered.events.last() == event
                &&& offered.accepted == model.accepted + 1
                &&& offered.dropped == model.dropped
                &&& offered.high_water >= model.high_water
                &&& offered.high_water >= offered.events.len()
                &&& offered.high_water == model.high_water || offered.high_water
                    == offered.events.len()
            }
            &&& model.events.len() >= capacity ==> {
                &&& offered.events == model.events
                &&& offered.accepted == model.accepted
                &&& offered.dropped == model.dropped + 1
                &&& offered.high_water == model.high_water
            }
            &&& offered.consumed == model.consumed
            &&& model.events.len() > 0 ==> {
                &&& taken.events.len() == model.events.len() - 1
                &&& forall|i: int|
                    0 <= i < taken.events.len() ==> #[trigger] taken.events[i] == model.events[i
                        + 1]
                &&& taken.consumed == model.consumed + 1
            }
            &&& model.events.len() == 0 ==> taken == model
            &&& taken.accepted == model.accepted
            &&& taken.dropped == model.dropped
            &&& taken.high_water == model.high_water
        }),
{
}

/// Identities count up from one and skip zero when they wrap.
pub proof fn control_ids_count_up(last: u32)
    ensures
        last < u32::MAX ==> next_control_id(last) - last == 1,
        next_control_id(u32::MAX) == 1,
{
}

/// An identity and a completion come back as they were made.
pub proof fn completion_comes_back<R>(
    raw: u32,
    made: Option<ControlId>,
    number: u32,
    result: R,
    completion: ControlCompletion<R>,
    id: ControlId,
    inner: R,
)
    requires
        call_ensures(ControlId::try_from_raw, (raw,), made),
        made matches Some(valid) ==> call_ensures(ControlId::get, (valid,), number),
        made matches Some(valid) ==> call_ensures(
            ControlCompletion::<R>::new,
            (valid, result),
            completion,
        ),
        call_ensures(ControlCompletion::<R>::id, (&completion,), id),
        call_ensures(ControlCompletion::<R>::into_inner, (completion,), inner),
    ensures
        made is None <==> raw == 0,
        made matches Some(valid) ==> number == raw && id == valid && inner == result,
{
}

/// A command comes out at the other side as it went in, and so does its result: what
/// the sender submitted is what an idle receiver takes, under the identity that the
/// sender holds, and what the receiver completes it with is what the sender takes.
pub proof fn command_and_result_arrive_unchanged<C, R>()
    ensures
        forall|
            sender: &mut ControlSender<C, R>,
            state: &mut ControlState<C, R>,
            command: C,
            id: ControlId,
            receiver: &mut ControlReceiver<C, R>,
            later: &mut ControlState<C, R>,
            taken: Option<ControlCommand<C>>,
        |
            #[trigger] call_ensures(
                ControlSender::<C, R>::try_submit,
                (sender, state, command),
                Ok(id),
            ) && #[trigger] call_ensures(
                ControlReceiver::<C, R>::try_take_command,
                (receiver, later),
                taken,
            ) && *later == *final(state) && receiver@ is None ==> {
                &&& taken matches Some(arrived)
                &&& arrived@ == (id, command)
                &&& final(sender)@.outstanding == Some(id)
                &&& final(receiver)@ == Some(id)
                &&& final(later)@.commands.len() == 0
            },
        forall|
            receiver: &mut ControlReceiver<C, R>,
            state: &mut ControlState<C, R>,
            id: ControlId,
            result: R,
            sender: &mut ControlSender<C, R>,
            later: &mut ControlState<C, R>,
            taken: Result<Option<ControlCompletion<R>>, StaleControlCompletion<R>>,
        |
            #[trigger] call_ensures(
                ControlReceiver::<C, R>::complete,
                (receiver, state, id, result),
                Ok(()),
            ) && #[trigger] call_ensures(
                ControlSender::<C, R>::try_take_completion,
                (sender, later),
                taken,
            ) && *later == *final(state) ==> {
                &&& receiver@ == Some(id)
                &&& final(receiver)@ is None
                &&& final(later)@.completion is None
                &&& sender@.outstanding == Some(id) ==> {
                    &&& taken matches Ok(Some(arrived))
                    &&& arrived@ == (id, result)
                    &&& final(sender)@.outstanding is None
                }
                &&& sender@.outstanding != Some(id) ==> {
                    &&& taken matches Err(stale)
                    &&& stale@ == (sender@.outstanding, id, result)
                    &&& final(sender)@ == sender@
                }
            },
{
}

/// A published event is delivered: the oldest waiting one comes first, and the one
/// just accepted comes next where none waited. A refused event comes back unchanged,
/// and only a full queue refuses.
pub proof fn published_event_is_delivered<E, const CAPACITY: usize>()
    ensures
        forall|
            producer: &mut EventProducer<E, CAPACITY>,
            state: &mut EventState<E, CAPACITY>,
            event: E,
            published: Result<(), EventPublishError<E>>,
            consumer: &mut EventConsumer<E, CAPACITY>,
            later: &mut EventState<E, CAPACITY>,
            next: Option<E>,
        |
            #[trigger] call_ensures(
                EventProducer::<E, CAPACITY>::try_publish,
                (producer, state, event),
                published,
            ) && #[trigger] call_ensures(
                EventConsumer::<E, CAPACITY>::try_next_event,
                (consumer, later),
                next,
            ) && state.wf() && *later == *final(state) ==> {
                &&& published is Err <==> state@.events.len() >= CAPACITY
                &&& published matches Err(refused) ==> refused@ == event
                &&& state@.events.len() > 0 ==> next == Some(state@.events[0])
                &&& state@.events.len() == 0 && published is Ok ==> next == Some(event)
            },
{
}

} // verus!
