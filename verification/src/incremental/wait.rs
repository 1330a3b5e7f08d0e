//! Wake sources, wait sets, and what an idle runner waits for.

use core::task::Context;

use vstd::prelude::*;

verus! {

/// Bit of the controller command source.
pub const COMMAND_BIT: u8 = 1;

/// Bit of the backend source.
pub const BACKEND_BIT: u8 = 2;

/// Bit of the link-layer receive source.
pub const L2_RX_BIT: u8 = 4;

/// Bit of the deadline source.
pub const TIMER_BIT: u8 = 8;

/// Bit of the cancellation source.
pub const CANCEL_BIT: u8 = 16;

/// Wake sources that an idle radio runner may wait on together.
///
/// The set is a bit per source.
#[derive(Clone, Copy, Debug, PartialEq, Eq, Structural)]
pub struct WaitSet {
    pub(crate) bits: u8,
}

impl WaitSet {
    /// The bits of the sources in the set.
    pub open(crate) spec fn view(&self) -> u8 {
        self.bits
    }

    /// The set with exactly these bits.
    pub open(crate) spec fn of(bits: u8) -> Self {
        WaitSet { bits }
    }

    /// The set holds the source with this bit.
    pub open spec fn has(self, bit: u8) -> bool {
        self@ & bit == bit
    }

    /// A controller command entered the command queue.
    pub fn command() -> (set: Self)
        ensures
            set == WaitSet::of(COMMAND_BIT),
    {
        WaitSet { bits: COMMAND_BIT }
    }

    /// A backend callback or deferred IRQ made protocol work ready.
    pub fn backend() -> (set: Self)
        ensures
            set == WaitSet::of(BACKEND_BIT),
    {
        WaitSet { bits: BACKEND_BIT }
    }

    /// Link-layer receive work is ready.
    pub fn l2_rx() -> (set: Self)
        ensures
            set == WaitSet::of(L2_RX_BIT),
    {
        WaitSet { bits: L2_RX_BIT }
    }

    /// The next backend deadline elapsed.
    pub fn timer() -> (set: Self)
        ensures
            set == WaitSet::of(TIMER_BIT),
    {
        WaitSet { bits: TIMER_BIT }
    }

    /// A controller abandoned an accepted command.
    pub fn cancel() -> (set: Self)
        ensures
            set == WaitSet::of(CANCEL_BIT),
    {
        WaitSet { bits: CANCEL_BIT }
    }

    /// An empty set, used when another poll should happen immediately.
    pub fn empty() -> (set: Self)
        ensures
            set == WaitSet::of(0),
    {
        WaitSet { bits: 0 }
    }

    /// Combine independent wake sources.
    pub fn union(self, other: Self) -> (set: Self)
        ensures
            set == WaitSet::of(self@ | other@),
    {
        WaitSet { bits: self.bits | other.bits }
    }

    /// Remove the sources in `other`.
    pub fn without(self, other: Self) -> (set: Self)
        ensures
            set == WaitSet::of(self@ & !other@),
    {
        WaitSet { bits: self.bits & !other.bits }
    }

    /// Test whether all sources in `other` are present.
    pub fn contains(self, other: Self) -> (all: bool)
        ensures
            all == self.has(other@),
    {
        self.bits & other.bits == other.bits
    }

    /// Stable machine-readable bit representation.
    pub fn bits(self) -> (bits: u8)
        ensures
            bits == self@,
    {
        self.bits
    }

    /// Construct the singleton set for one wake reason.
    pub fn from_reason(reason: WakeReason) -> (set: Self)
        ensures
            set == WaitSet::of(reason.mask()),
    {
        WaitSet { bits: reason.bit() }
    }

    /// Test whether the set has no wake sources.
    pub fn is_empty(self) -> (none: bool)
        ensures
            none == (self@ == 0),
    {
        self.bits == 0
    }

    /// Test whether the sets share at least one wake source.
    pub fn intersects(self, other: Self) -> (shared: bool)
        ensures
            shared == (self@ & other@ != 0),
    {
        self.bits & other.bits != 0
    }
}

impl Default for WaitSet {
    fn default() -> (set: Self)
        ensures
            set == WaitSet::of(0),
    {
        WaitSet { bits: 0 }
    }
}

/// A wait set is exactly its bits.
pub proof fn wait_set_is_its_bits(set: WaitSet, bits: u8)
    ensures
        WaitSet::of(bits)@ == bits,
        WaitSet::of(set@) == set,
{
}

/// The set operations act source by source: `union` holds a source exactly when
/// one of its operands does, and `without` exactly when the first operand does
/// and the second does not.
pub proof fn wait_sets_combine_by_source(a: u8, b: u8, bit: u8)
    requires
        bit == COMMAND_BIT || bit == BACKEND_BIT || bit == L2_RX_BIT || bit == TIMER_BIT || bit
            == CANCEL_BIT,
    ensures
        WaitSet::of(a | b).has(bit) <==> WaitSet::of(a).has(bit) || WaitSet::of(b).has(bit),
        WaitSet::of(a & !b).has(bit) <==> WaitSet::of(a).has(bit) && !WaitSet::of(b).has(bit),
        WaitSet::of(a & b).has(bit) <==> WaitSet::of(a).has(bit) && WaitSet::of(b).has(bit),
        !WaitSet::of(0).has(bit),
{
    assert(((a | b) & bit == bit <==> a & bit == bit || b & bit == bit) && ((a & !b) & bit == bit
        <==> a & bit == bit && b & bit != bit) && ((a & b) & bit == bit <==> a & bit == bit && b
        & bit == bit) && (0u8 & bit != bit)) by (bit_vector)
        requires
            bit == 1 || bit == 2 || bit == 4 || bit == 8 || bit == 16,
    ;
}

/// One wake source selected for the next bounded runner step.
#[derive(Clone, Copy, Debug, PartialEq, Eq, Structural)]
pub enum WakeReason {
    /// A controller command is waiting.
    Command,
    /// A backend callback or deferred IRQ made protocol work ready.
    Backend,
    /// Link-layer receive work is ready.
    L2Rx,
    /// The next backend deadline elapsed.
    Timer,
}

/// Number of wake reasons.
pub const WAKE_REASONS: u8 = 4;

impl WakeReason {
    /// The bit of the source behind the reason.
    pub open spec fn mask(self) -> u8 {
        match self {
            WakeReason::Command => COMMAND_BIT,
            WakeReason::Backend => BACKEND_BIT,
            WakeReason::L2Rx => L2_RX_BIT,
            WakeReason::Timer => TIMER_BIT,
        }
    }

    /// Position of the reason in the rotation.
    pub open spec fn position(self) -> int {
        match self {
            WakeReason::Command => 0,
            WakeReason::Backend => 1,
            WakeReason::L2Rx => 2,
            WakeReason::Timer => 3,
        }
    }

    /// The reason at a position of the rotation, which repeats.
    pub open spec fn at_position(position: int) -> Self {
        if position % 4 == 0 {
            WakeReason::Command
        } else if position % 4 == 1 {
            WakeReason::Backend
        } else if position % 4 == 2 {
            WakeReason::L2Rx
        } else {
            WakeReason::Timer
        }
    }

    pub(crate) fn from_index(index: u8) -> (reason: Self)
        requires
            index < WAKE_REASONS,
        ensures
            reason == WakeReason::at_position(index as int),
            reason.position() == index,
    {
        match index {
            0 => WakeReason::Command,
            1 => WakeReason::Backend,
            2 => WakeReason::L2Rx,
            _ => WakeReason::Timer,
        }
    }

    pub(crate) fn index(self) -> (index: u8)
        ensures
            index == self.position(),
    {
        match self {
            WakeReason::Command => 0,
            WakeReason::Backend => 1,
            WakeReason::L2Rx => 2,
            WakeReason::Timer => 3,
        }
    }

    pub(crate) fn bit(self) -> (bit: u8)
        ensures
            bit == self.mask(),
    {
        let index: u8 = self.index();
        assert(1u8 << 0u8 == 1 && 1u8 << 1u8 == 2 && 1u8 << 2u8 == 4 && 1u8 << 3u8 == 8)
            by (bit_vector);
        1u8 << index
    }
}

/// Immediate work, wake subscriptions, and the next deadline of a runner.
#[derive(Clone, Copy, Debug, PartialEq, Eq, Structural)]
pub struct IncrementalWaitIntent {
    /// Sources to wait on together.
    pub sources: WaitSet,
    /// Monotonic deadline behind the timer source, in microseconds.
    pub deadline_us: Option<u64>,
    /// Work is already runnable and no wake is needed.
    pub run_immediately: bool,
}

impl IncrementalWaitIntent {
    /// Sources to wait on together.
    pub fn sources(self) -> (sources: WaitSet)
        ensures
            sources == self.sources,
    {
        self.sources
    }

    /// Monotonic deadline behind the timer source, in microseconds.
    pub fn deadline_us(self) -> (deadline_us: Option<u64>)
        ensures
            deadline_us == self.deadline_us,
    {
        self.deadline_us
    }

    /// Whether work is already runnable and no wake is needed.
    pub fn run_immediately(self) -> (run_immediately: bool)
        ensures
            run_immediately == self.run_immediately,
    {
        self.run_immediately
    }

    /// Also wait for a command; a `queued` one is immediate work.
    pub fn with_command(self, queued: bool) -> (intent: Self)
        ensures
            intent == self.extended(COMMAND_BIT, queued),
    {
        IncrementalWaitIntent {
            sources: self.sources.union(WaitSet::command()),
            deadline_us: self.deadline_us,
            run_immediately: self.run_immediately || queued,
        }
    }

    /// Also wait for a cancellation; a `queued` one is immediate work.
    pub fn with_cancellation(self, queued: bool) -> (intent: Self)
        ensures
            intent == self.extended(CANCEL_BIT, queued),
    {
        IncrementalWaitIntent {
            sources: self.sources.union(WaitSet::cancel()),
            deadline_us: self.deadline_us,
            run_immediately: self.run_immediately || queued,
        }
    }

    /// The intent with one more source, immediate when that source is `ready`.
    pub open spec fn extended(self, bit: u8, ready: bool) -> Self {
        IncrementalWaitIntent {
            sources: WaitSet::of(self.sources@ | bit),
            deadline_us: self.deadline_us,
            run_immediately: self.run_immediately || ready,
        }
    }
}

/// Outcome of polling work that may not be finished.
#[derive(Debug, PartialEq, Eq)]
pub enum PollState<T> {
    /// Not finished; the waker in the context was registered.
    Pending,
    /// Finished with this value.
    Ready(T),
}

/// `core::task::Context`, the waker carrier handed to polled work.
///
/// The type is opaque: values of it are only passed on.
#[verifier::external_type_specification]
#[verifier::external_body]
pub struct ExContext<'a>(Context<'a>);

/// One poll of an [`IncrementalWaitPlatform`] and its outcome.
pub struct PlatformPoll<E> {
    /// Sources asked for.
    pub sources: WaitSet,
    /// Deadline handed over.
    pub deadline_us: Option<u64>,
    /// Value returned.
    pub result: PollState<Result<WaitSet, E>>,
}

/// Platform registration of backend, link-layer, and timer wakes.
///
/// What a poll returns is the platform's own decision. An implementation states
/// in `polled` what it promises; the relation holds of everything unless it
/// does.
pub trait IncrementalWaitPlatform: Sized {
    /// Failure of the platform's wait mechanism.
    type Error;

    /// `poll_ready` may turn `before` into `after`, handed the sources and the
    /// deadline.
    open spec fn polled(
        before: Self,
        sources: WaitSet,
        deadline_us: Option<u64>,
        after: Self,
        result: PollState<Result<WaitSet, Self::Error>>,
    ) -> bool {
        true
    }

    /// Report which of `sources` are ready, registering the waker otherwise.
    fn poll_ready(&mut self, cx: &mut Context<'_>, sources: WaitSet, deadline_us: Option<u64>) -> (result:
        PollState<Result<WaitSet, Self::Error>>)
        ensures
            Self::polled(*old(self), sources, deadline_us, *final(self), result),
    ;
}

/// `poll`, if any, is the one platform poll that turned `before` into `after`.
pub open spec fn platform_steps<P: IncrementalWaitPlatform>(
    before: P,
    poll: Option<PlatformPoll<P::Error>>,
    after: P,
) -> bool {
    match poll {
        None => after == before,
        Some(made) => P::polled(before, made.sources, made.deadline_us, after, made.result),
    }
}

/// Failure of a unified wait.
#[derive(Debug, PartialEq, Eq)]
pub enum IncrementalWaitError<E> {
    /// The platform could not wait.
    Platform(E),
    /// The platform reported a source that was not asked for.
    UnexpectedSources {
        /// Sources asked for.
        subscribed: WaitSet,
        /// Sources reported.
        ready: WaitSet,
    },
}

/// Every wake source has a bit of its own, and the set made for a reason holds that
/// source and no other.
pub proof fn each_source_has_its_bit(
    command: WaitSet,
    backend: WaitSet,
    l2_rx: WaitSet,
    timer: WaitSet,
    cancel: WaitSet,
    reason: WakeReason,
    made: WaitSet,
)
    requires
        call_ensures(WaitSet::command, (), command),
        call_ensures(WaitSet::backend, (), backend),
        call_ensures(WaitSet::l2_rx, (), l2_rx),
        call_ensures(WaitSet::timer, (), timer),
        call_ensures(WaitSet::cancel, (), cancel),
        call_ensures(WaitSet::from_reason, (reason,), made),
    ensures
        command@ == 1,
        backend@ == 2,
        l2_rx@ == 4,
        timer@ == 8,
        cancel@ == 16,
        made == match reason {
            WakeReason::Command => command,
            WakeReason::Backend => backend,
            WakeReason::L2Rx => l2_rx,
            WakeReason::Timer => timer,
        },
{
}

/// The rotation holds every reason once: each position names one reason, each reason
/// has one position, and the rotation repeats after four.
pub proof fn rotation_holds_every_reason(reason: WakeReason, position: int)
    ensures
        0 <= reason.position() < 4,
        WakeReason::at_position(reason.position()) == reason,
        WakeReason::at_position(position + 4) == WakeReason::at_position(position),
        0 <= position < 4 ==> WakeReason::at_position(position).position() == position,
        WakeReason::at_position(0) is Command,
        WakeReason::at_position(1) is Backend,
        WakeReason::at_position(2) is L2Rx,
        WakeReason::at_position(3) is Timer,
{
}

/// One more source is waited for and no other is given up; the deadline stays, and
/// the work is immediate when it was or when the source is already ready.
pub proof fn extension_adds_one_source(
    intent: IncrementalWaitIntent,
    queued: bool,
    with_command: IncrementalWaitIntent,
    with_cancellation: IncrementalWaitIntent,
)
    requires
        call_ensures(IncrementalWaitIntent::with_command, (intent, queued), with_command),
        call_ensures(IncrementalWaitIntent::with_cancellation, (intent, queued), with_cancellation),
    ensures
        with_command.sources@ == intent.sources@ | 1,
        with_cancellation.sources@ == intent.sources@ | 16,
        with_command.deadline_us == intent.deadline_us,
        with_cancellation.deadline_us == intent.deadline_us,
        with_command.run_immediately <==> intent.run_immediately || queued,
        with_cancellation.run_immediately <==> intent.run_immediately || queued,
{
}

/// The operations on sets act source by source: a source is in a union when it is in
/// either set, without the other when it is in the first alone, and two sets
/// intersect when they share one.
pub proof fn set_operations_act_by_source(
    a: WaitSet,
    b: WaitSet,
    one: WaitSet,
    reason: WakeReason,
    both: WaitSet,
    rest: WaitSet,
    in_a: bool,
    in_b: bool,
    in_both: bool,
    in_rest: bool,
    shared: bool,
)
    requires
        call_ensures(WaitSet::from_reason, (reason,), one),
        call_ensures(WaitSet::union, (a, b), both),
        call_ensures(WaitSet::without, (a, b), rest),
        call_ensures(WaitSet::contains, (a, one), in_a),
        call_ensures(WaitSet::contains, (b, one), in_b),
        call_ensures(WaitSet::contains, (both, one), in_both),
        call_ensures(WaitSet::contains, (rest, one), in_rest),
        call_ensures(WaitSet::intersects, (a, b), shared),
    ensures
        in_both <==> in_a || in_b,
        in_rest <==> in_a && !in_b,
        in_a && in_b ==> shared,
{
    let x = a@;
    let y = b@;
    let bit = reason.mask();
    wait_sets_combine_by_source(x, y, bit);
    assert(x & bit == bit && y & bit == bit ==> x & y != 0) by (bit_vector)
        requires
            bit == 1 || bit == 2 || bit == 4 || bit == 8,
    ;
}

} // verus!
