//! State shared by the control plane, the data plane, and the runner.

use core::task::Context;

use vstd::prelude::*;

use crate::incremental::counters::INCREMENTAL_DIAGNOSTIC_COUNTERS;
use crate::incremental::{IncrementalRunnerDiagnostics, PollState};
use crate::queue::BoundedQueue;
use crate::transport::{CancellationChannel, Command, CommandChannel, Completion, CompletionSignal};
use crate::wifi::{ScanResult, WifiEvent, WifiL2Capabilities, MAX_SCAN_RESULTS};

verus! {

/// Last published counters of the incremental runner.
pub struct IncrementalDiagnosticsState {
    counters: [u32; INCREMENTAL_DIAGNOSTIC_COUNTERS],
}

impl IncrementalDiagnosticsState {
    /// The published counters in declaration order.
    pub closed spec fn view(&self) -> Seq<u32> {
        self.counters@
    }

    /// Nothing has been published: every counter is zero.
    pub fn new() -> (state: Self)
        ensures
            state@ == IncrementalRunnerDiagnostics::zero()@,
    {
        let state = IncrementalDiagnosticsState { counters: [0; INCREMENTAL_DIAGNOSTIC_COUNTERS] };
        assert(state@ =~= IncrementalRunnerDiagnostics::zero()@);
        state
    }

    /// Publish a snapshot of the runner's counters.
    pub fn publish(&mut self, value: IncrementalRunnerDiagnostics)
        ensures
            final(self)@ == value@,
    {
        self.counters = value.as_array();
    }

    /// The counters of the last publication.
    pub fn snapshot(&self) -> (value: IncrementalRunnerDiagnostics)
        ensures
            value@ == self@,
    {
        IncrementalRunnerDiagnostics::from_array(self.counters)
    }
}

/// Link-layer properties, published once.
pub struct L2CapabilityState {
    published: Option<WifiL2Capabilities>,
}

impl L2CapabilityState {
    /// What was published.
    pub closed spec fn view(&self) -> Option<WifiL2Capabilities> {
        self.published
    }

    /// Nothing has been published.
    pub fn new() -> (state: Self)
        ensures
            state@ is None,
    {
        L2CapabilityState { published: None }
    }

    /// Publish `capabilities` unless something was published before.
    pub fn publish_once(&mut self, capabilities: WifiL2Capabilities)
        ensures
            final(self)@ == match old(self)@ {
                Some(first) => Some(first),
                None => Some(capabilities),
            },
    {
        if self.published.is_none() {
            self.published = Some(capabilities);
        }
    }

    /// What was published.
    pub fn snapshot(&self) -> (capabilities: Option<WifiL2Capabilities>)
        ensures
            capabilities == self@,
    {
        self.published
    }
}

/// Everything that the handles of one radio share.
pub struct RadioModel {
    /// A radio instance owns this state.
    pub claimed: bool,
    /// Commands waiting for the runner.
    pub commands: Seq<Command>,
    /// Abandoned sequences waiting for the runner.
    pub cancellations: Seq<u32>,
    /// Completion waiting for the controller.
    pub completion: Option<Completion>,
    /// Events waiting for the controller, oldest first.
    pub events: Seq<WifiEvent>,
    /// Events discarded because the queue was full, saturating.
    pub dropped_events: u32,
    /// Most events that ever waited, saturating.
    pub event_high_water: u32,
    /// Most commands that ever waited.
    pub command_high_water: u32,
    /// Published runner counters.
    pub incremental: Seq<u32>,
    /// Published link-layer properties.
    pub l2_capabilities: Option<WifiL2Capabilities>,
    /// Results of the last scan.
    pub scan_results: Seq<ScanResult>,
}

/// Which tasks are registered to be woken, by what wakes them.
pub struct Waiters {
    /// The runner, by the next command.
    pub command: bool,
    /// An operation, by room for its command.
    pub room: bool,
    /// The runner, by the next abandoned sequence.
    pub cancellation: bool,
    /// An operation, by the next completion.
    pub completion: bool,
    /// The controller, by the next event.
    pub event: bool,
}

/// A step of the runner wakes whoever waits for what it did: room in the command
/// channel, a completion, or an event. It registers nobody.
pub open spec fn wakes(
    before: RadioModel,
    waiting: Waiters,
    after: RadioModel,
    left: Waiters,
) -> bool {
    &&& left.command ==> waiting.command
    &&& left.cancellation ==> waiting.cancellation
    &&& left.room ==> waiting.room && after.commands.len() >= before.commands.len()
    &&& left.completion ==> waiting.completion && after.completion == before.completion
    &&& left.event ==> waiting.event && after.events == before.events
}

/// `depth` as a counter value.
pub open spec fn clamped(depth: nat) -> u32 {
    if depth > u32::MAX {
        u32::MAX
    } else {
        depth as u32
    }
}

/// The larger of two counter values.
pub open spec fn larger(a: u32, b: u32) -> u32 {
    if a < b {
        b
    } else {
        a
    }
}

/// The queue after `event` was put into one that holds `capacity` at most: the
/// oldest event makes room.
pub open spec fn enqueued(events: Seq<WifiEvent>, capacity: nat, event: WifiEvent) -> Seq<
    WifiEvent,
> {
    if events.len() < capacity {
        events.push(event)
    } else {
        events.drop_first().push(event)
    }
}

impl RadioModel {
    /// The state after `event` was published to a queue of `capacity`.
    pub open spec fn published(self, capacity: nat, event: WifiEvent) -> Self {
        let events = enqueued(self.events, capacity, event);
        RadioModel {
            events,
            dropped_events: if self.events.len() < capacity {
                self.dropped_events
            } else {
                crate::incremental::counters::counted(self.dropped_events)
            },
            event_high_water: larger(self.event_high_water, clamped(events.len())),
            ..self
        }
    }

    /// The state after `completion` was signalled.
    pub open spec fn completed(self, completion: Completion) -> Self {
        RadioModel { completion: Some(completion), ..self }
    }
}

/// A full queue keeps the newest events: after a publication the queue is within
/// its capacity and ends with the event just published.
pub proof fn newest_event_survives(model: RadioModel, capacity: nat, event: WifiEvent)
    requires
        0 < capacity,
        model.events.len() <= capacity,
    ensures
        0 < model.published(capacity, event).events.len() <= capacity,
        model.published(capacity, event).events.last() == event,
{
}

/// Every publication that discards an event is counted, and no other is.
pub proof fn discarded_events_are_counted(model: RadioModel, capacity: nat, event: WifiEvent)
    requires
        0 < capacity,
        model.events.len() <= capacity,
        model.dropped_events < u32::MAX,
    ensures
        model.published(capacity, event).dropped_events - model.dropped_events
            == model.events.len() + 1 - model.published(capacity, event).events.len(),
{
}

/// A publication discards the oldest event and no other, and only when the queue
/// is full: every event that stays keeps its place in the order, and the new one
/// is last.
pub proof fn only_the_oldest_event_is_discarded(model: RadioModel, capacity: nat, event: WifiEvent)
    requires
        0 < capacity,
        model.events.len() <= capacity,
    ensures
        ({
            let after = model.published(capacity, event).events;
            &&& after.len() > 0
            &&& after.last() == event
            &&& model.events.len() < capacity ==> {
                &&& after.len() == model.events.len() + 1
                &&& forall|i: int| 0 <= i < model.events.len() ==> #[trigger] after[i] == model.events[i]
            }
            &&& model.events.len() == capacity ==> {
                &&& after.len() == capacity
                &&& forall|i: int|
                    0 <= i < capacity - 1 ==> #[trigger] after[i] == model.events[i + 1]
            }
        }),
{
}

impl RadioModel {
    /// The state after `events` were published, the first one first.
    pub open spec fn published_all(self, capacity: nat, events: Seq<WifiEvent>) -> Self
        decreases events.len(),
    {
        if events.len() == 0 {
            self
        } else {
            self.published_all(capacity, events.drop_last()).published(capacity, events.last())
        }
    }
}

/// After any number of publications the queue holds exactly the most recent
/// events that fit, in the order of publication, and the discarded ones are
/// counted.
pub proof fn queue_holds_the_most_recent_events(
    model: RadioModel,
    capacity: nat,
    events: Seq<WifiEvent>,
)
    requires
        0 < capacity,
        model.events.len() <= capacity,
    ensures
        ({
            let offered = model.events + events;
            let excess = if offered.len() > capacity {
                offered.len() - capacity
            } else {
                0
            };
            let after = model.published_all(capacity, events);
            &&& after.events == offered.skip(excess)
            &&& model.dropped_events + excess <= u32::MAX ==> after.dropped_events
                == model.dropped_events + excess
            &&& model.dropped_events + excess > u32::MAX ==> after.dropped_events == u32::MAX
        }),
    decreases events.len(),
{
    if events.len() == 0 {
        assert(model.events + events =~= (model.events + events).skip(0));
        assert(model.events + events =~= model.events);
    } else {
        queue_holds_the_most_recent_events(model, capacity, events.drop_last());
        let offered = model.events + events;
        let earlier = model.events + events.drop_last();
        let excess = if offered.len() > capacity {
            offered.len() - capacity
        } else {
            0
        };
        assert(offered =~= earlier.push(events.last()));
        assert(model.published_all(capacity, events).events =~= offered.skip(excess));
    }
}

/// A publication touches only the queue and its two counters. The largest
/// occupancy never shrinks, covers what waits, and is an occupancy that occurred.
pub proof fn publication_touches_only_the_queue(model: RadioModel, capacity: nat, event: WifiEvent)
    ensures
        ({
            let after = model.published(capacity, event);
            &&& after.claimed == model.claimed
            &&& after.commands == model.commands
            &&& after.cancellations == model.cancellations
            &&& after.completion == model.completion
            &&& after.command_high_water == model.command_high_water
            &&& after.incremental == model.incremental
            &&& after.l2_capabilities == model.l2_capabilities
            &&& after.scan_results == model.scan_results
            &&& after.event_high_water >= model.event_high_water
            &&& after.events.len() <= u32::MAX ==> {
                &&& after.event_high_water >= after.events.len()
                &&& after.event_high_water == model.event_high_water || after.event_high_water
                    == after.events.len()
            }
            &&& after.events.len() > u32::MAX ==> after.event_high_water == u32::MAX
        }),
{
}

/// A signalled completion replaces the one before it and touches nothing else.
pub proof fn completion_touches_only_its_slot(model: RadioModel, completion: Completion)
    ensures
        ({
            let after = model.completed(completion);
            &&& after.completion matches Some(signalled) && signalled.sequence
                == completion.sequence && signalled.kind == completion.kind
            &&& after.claimed == model.claimed
            &&& after.commands == model.commands
            &&& after.cancellations == model.cancellations
            &&& after.events == model.events
            &&& after.dropped_events == model.dropped_events
            &&& after.event_high_water == model.event_high_water
            &&& after.command_high_water == model.command_high_water
            &&& after.incremental == model.incremental
            &&& after.l2_capabilities == model.l2_capabilities
            &&& after.scan_results == model.scan_results
        }),
{
}

/// Static storage for one radio controller and its bounded event queue.
pub struct RadioState<const EVENTS: usize> {
    pub(crate) claimed: bool,
    pub(crate) commands: CommandChannel,
    pub(crate) cancellations: CancellationChannel,
    pub(crate) completion: CompletionSignal,
    pub(crate) events: BoundedQueue<WifiEvent, EVENTS>,
    pub(crate) dropped_events: u32,
    pub(crate) event_high_water: u32,
    pub(crate) command_high_water: u32,
    pub(crate) incremental_diagnostics: IncrementalDiagnosticsState,
    pub(crate) l2_capabilities: L2CapabilityState,
    pub(crate) scan_results: [ScanResult; MAX_SCAN_RESULTS],
}

impl<const EVENTS: usize> RadioState<EVENTS> {
    /// Everything shared.
    pub open(crate) spec fn view(&self) -> RadioModel {
        RadioModel {
            claimed: self.claimed,
            commands: self.commands@,
            cancellations: self.cancellations@,
            completion: self.completion@,
            events: self.events@,
            dropped_events: self.dropped_events,
            event_high_water: self.event_high_water,
            command_high_water: self.command_high_water,
            incremental: self.incremental_diagnostics@,
            l2_capabilities: self.l2_capabilities@,
            scan_results: self.scan_results@,
        }
    }

    /// Which tasks are registered to be woken.
    pub open(crate) spec fn waiters(&self) -> Waiters {
        Waiters {
            command: crate::transport::command_awaited(self.commands),
            room: crate::transport::room_awaited(self.commands),
            cancellation: crate::transport::cancellation_awaited(self.cancellations),
            completion: crate::transport::completion_awaited(self.completion),
            event: self.events.awaited(),
        }
    }

    /// The event queue can hold an event and is within its bound.
    pub open(crate) spec fn wf(&self) -> bool {
        &&& EVENTS > 0
        &&& self.events.wf()
    }

    /// Construct unclaimed radio state suitable for static allocation.
    ///
    /// The event queue must be able to hold an event.
    pub fn new() -> (state: Self)
        requires
            EVENTS > 0,
        ensures
            state.wf(),
            !state@.claimed,
            state@.commands == Seq::<Command>::empty(),
            state@.cancellations == Seq::<u32>::empty(),
            state@.completion is None,
            state@.events == Seq::<WifiEvent>::empty(),
            state@.dropped_events == 0,
            state@.event_high_water == 0,
            state@.command_high_water == 0,
            state@.incremental == IncrementalRunnerDiagnostics::zero()@,
            state@.l2_capabilities is None,
            state@.scan_results.len() == MAX_SCAN_RESULTS,
            forall|i: int|
                0 <= i < MAX_SCAN_RESULTS ==> (#[trigger] state@.scan_results[i]).is_blank(),
            state.waiters() == (Waiters {
                command: false,
                room: false,
                cancellation: false,
                completion: false,
                event: false,
            }),
    {
        RadioState {
            claimed: false,
            commands: CommandChannel::new(),
            cancellations: CancellationChannel::new(),
            completion: CompletionSignal::new(),
            events: BoundedQueue::new(),
            dropped_events: 0,
            event_high_water: 0,
            command_high_water: 0,
            incremental_diagnostics: IncrementalDiagnosticsState::new(),
            l2_capabilities: L2CapabilityState::new(),
            scan_results: [ScanResult::empty(); MAX_SCAN_RESULTS],
        }
    }

    /// Claim the state for one radio instance. Only the first claim succeeds.
    pub fn claim(&mut self) -> (claimed: bool)
        requires
            old(self).wf(),
        ensures
            final(self).wf(),
            claimed == !old(self)@.claimed,
            final(self)@ == (RadioModel { claimed: true, ..old(self)@ }),
            final(self).waiters() == old(self).waiters(),
    {
        let claimed = !self.claimed;
        self.claimed = true;
        claimed
    }

    /// Take the oldest command, if there is one, and wake the operation that waits
    /// for room.
    pub fn take_command(&mut self) -> (command: Option<Command>)
        requires
            old(self).wf(),
        ensures
            final(self).wf(),
            match command {
                Some(oldest) => {
                    &&& old(self)@.commands.len() > 0
                    &&& oldest == old(self)@.commands[0]
                    &&& final(self)@ == (RadioModel {
                        commands: old(self)@.commands.drop_first(),
                        ..old(self)@
                    })
                    &&& final(self).waiters() == (Waiters { room: false, ..old(self).waiters() })
                },
                None => {
                    &&& old(self)@.commands.len() == 0
                    &&& final(self)@ == old(self)@
                    &&& final(self).waiters() == old(self).waiters()
                },
            },
    {
        self.commands.try_receive()
    }

    /// Take the oldest command, or wait for it.
    pub fn poll_command(&mut self, cx: &mut Context<'_>) -> (command: PollState<Command>)
        requires
            old(self).wf(),
        ensures
            final(self).wf(),
            match command {
                PollState::Ready(oldest) => {
                    &&& old(self)@.commands.len() > 0
                    &&& oldest == old(self)@.commands[0]
                    &&& final(self)@ == (RadioModel {
                        commands: old(self)@.commands.drop_first(),
                        ..old(self)@
                    })
                    &&& final(self).waiters() == (Waiters { room: false, ..old(self).waiters() })
                },
                PollState::Pending => {
                    &&& old(self)@.commands.len() == 0
                    &&& final(self)@ == old(self)@
                    &&& final(self).waiters() == (Waiters { command: true, ..old(self).waiters() })
                },
            },
    {
        match self.take_command() {
            Some(command) => PollState::Ready(command),
            None => {
                let _ = self.commands.poll_ready_to_receive(cx);
                PollState::Pending
            },
        }
    }

    /// Retain the results of a scan for the controller.
    pub fn retain_scan_results(&mut self, results: [ScanResult; MAX_SCAN_RESULTS])
        requires
            old(self).wf(),
        ensures
            final(self).wf(),
            final(self)@ == (RadioModel { scan_results: results@, ..old(self)@ }),
            final(self).waiters() == old(self).waiters(),
    {
        self.scan_results = results;
    }

    /// Publish `event`, discarding the oldest one when the queue is full, and wake
    /// the controller.
    pub fn publish_event(&mut self, event: WifiEvent)
        requires
            old(self).wf(),
        ensures
            final(self).wf(),
            final(self)@ == old(self)@.published(EVENTS as nat, event),
            final(self).waiters() == (Waiters { event: false, ..old(self).waiters() }),
    {
        match self.events.try_push(event) {
            Ok(()) => {
                self.record_event_depth();
            },
            Err(event) => {
                let _ = self.events.try_pop();
                self.dropped_events = self.dropped_events.saturating_add(1);
                let _ = self.events.try_push(event);
                self.record_event_depth();
            },
        }
    }

    fn record_event_depth(&mut self)
        requires
            old(self).wf(),
        ensures
            final(self).wf(),
            final(self)@ == (RadioModel {
                event_high_water: larger(
                    old(self)@.event_high_water,
                    clamped(old(self)@.events.len()),
                ),
                ..old(self)@
            }),
            final(self).waiters() == old(self).waiters(),
    {
        let len: usize = self.events.len();
        let depth: u32 = if len > u32::MAX as usize {
            u32::MAX
        } else {
            len as u32
        };
        if self.event_high_water < depth {
            self.event_high_water = depth;
        }
    }

    /// Record that the one-entry command channel was occupied.
    pub fn record_command_accepted(&mut self)
        requires
            old(self).wf(),
        ensures
            final(self).wf(),
            final(self)@ == (RadioModel {
                command_high_water: larger(old(self)@.command_high_water, 1),
                ..old(self)@
            }),
            final(self).waiters() == old(self).waiters(),
    {
        if self.command_high_water < 1 {
            self.command_high_water = 1;
        }
    }

    /// Most events that ever waited for the controller.
    pub fn event_high_water(&self) -> (depth: u32)
        ensures
            depth == self@.event_high_water,
    {
        self.event_high_water
    }

    /// Most commands that ever waited for the runner.
    pub fn command_high_water(&self) -> (depth: u32)
        ensures
            depth == self@.command_high_water,
    {
        self.command_high_water
    }

    /// Publish the counters of the incremental runner.
    pub fn publish_incremental_diagnostics(&mut self, value: IncrementalRunnerDiagnostics)
        requires
            old(self).wf(),
        ensures
            final(self).wf(),
            final(self)@ == (RadioModel { incremental: value@, ..old(self)@ }),
            final(self).waiters() == old(self).waiters(),
    {
        self.incremental_diagnostics.publish(value);
    }

    /// The counters that the incremental runner published last.
    pub fn incremental_diagnostics(&self) -> (value: IncrementalRunnerDiagnostics)
        ensures
            value@ == self@.incremental,
    {
        self.incremental_diagnostics.snapshot()
    }
}

/// The event counters tell how full the queue was and what it lost: the high-water
/// mark is the larger of its old value and the occupancy, and the discarded events
/// are counted one by one up to the largest value.
pub proof fn event_counters_follow_the_queue(model: RadioModel, capacity: nat, event: WifiEvent)
    requires
        0 < capacity,
        model.events.len() <= capacity <= u32::MAX,
    ensures
        ({
            let after = model.published(capacity, event);
            &&& after.event_high_water >= model.event_high_water
            &&& after.event_high_water >= after.events.len()
            &&& after.event_high_water == model.event_high_water || after.event_high_water
                == after.events.len()
            &&& model.events.len() < capacity ==> after.dropped_events == model.dropped_events
            &&& model.events.len() == capacity && model.dropped_events < u32::MAX
                ==> after.dropped_events == model.dropped_events + 1
            &&& model.events.len() == capacity && model.dropped_events == u32::MAX
                ==> after.dropped_events == u32::MAX
        }),
{
}

/// Publishing into shared state that is in order keeps the most recent events: one
/// that fits leaves all others in place, and one too many takes the place of the
/// oldest, with the others moving up. The new one is last either way.
pub proof fn publishing_keeps_the_most_recent<const EVENTS: usize>()
    ensures
        forall|slot: &mut RadioState<EVENTS>, event: WifiEvent| #[trigger]
            call_ensures(RadioState::<EVENTS>::publish_event, (slot, event), ()) && slot.wf() ==> {
                let queued = slot@.events;
                let left = final(slot)@.events;
                &&& left.last() == event
                &&& queued.len() < EVENTS ==> {
                    &&& left.len() == queued.len() + 1
                    &&& forall|i: int| 0 <= i < queued.len() ==> #[trigger] left[i] == queued[i]
                }
                &&& queued.len() == EVENTS ==> {
                    &&& left.len() == EVENTS
                    &&& forall|i: int|
                        0 <= i < EVENTS - 1 ==> #[trigger] left[i] == queued[i + 1]
                }
                &&& final(slot)@.completion == slot@.completion
                &&& final(slot)@.commands == slot@.commands
                &&& final(slot)@.cancellations == slot@.cancellations
                &&& final(slot)@.scan_results == slot@.scan_results
            },
{
}

} // verus!
