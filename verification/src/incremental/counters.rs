//! Observational counters of the incremental runner.

use vstd::prelude::*;

use crate::incremental::wait::{BACKEND_BIT, COMMAND_BIT, L2_RX_BIT, TIMER_BIT};
use crate::incremental::{IncrementalDriverEvent, WaitSet};

verus! {

/// Number of counters in [`IncrementalRunnerDiagnostics`].
pub const INCREMENTAL_DIAGNOSTIC_COUNTERS: usize = 18;

/// Observational counters for the incremental runner.
///
/// Counters saturate at `u32::MAX`. They are intentionally local to the unique
/// runner and never participate in scheduling, wake delivery, or correctness.
#[derive(Clone, Copy, Debug, PartialEq, Eq, Structural)]
pub struct IncrementalRunnerDiagnostics {
    /// Calls to [`crate::IncrementalRadioRunner::run_once`].
    pub run_once_calls: u32,
    /// Calls that supplied command readiness.
    pub command_ready_batches: u32,
    /// Calls that supplied backend readiness.
    pub backend_ready_batches: u32,
    /// Calls that supplied L2 RX readiness.
    pub l2_rx_ready_batches: u32,
    /// Calls that supplied timer readiness.
    pub timer_ready_batches: u32,
    /// Waits that were first polled.
    pub wait_ready_calls: u32,
    /// Waits that returned a ready set.
    pub wait_ready_completions: u32,
    /// Waits that returned without an external wake because work was already
    /// runnable.
    pub immediate_ready_completions: u32,
    /// Waits that failed closed.
    pub wait_ready_errors: u32,
    /// Backend operations accepted by the incremental driver.
    pub operations_started: u32,
    /// Cancellation requests delivered to the backend.
    pub cancellations_requested: u32,
    /// Polls that remained pending within their work grant.
    pub pending_polls: u32,
    /// Polls that consumed their complete work grant.
    pub budget_exhaustions: u32,
    /// Operations that completed successfully.
    pub operations_completed: u32,
    /// Operations that reached cancelled terminal state.
    pub operations_cancelled: u32,
    /// Operations that reached failed terminal state.
    pub operations_failed: u32,
    /// Internal driver transition failures.
    pub driver_errors: u32,
    /// Facade publication or command-ledger failures.
    pub protocol_errors: u32,
}

/// One more, staying at the largest value.
pub open spec fn counted(counter: u32) -> u32 {
    if counter == u32::MAX {
        counter
    } else {
        (counter + 1) as u32
    }
}

/// One more if `happened`.
pub open spec fn counted_if(happened: bool, counter: u32) -> u32 {
    if happened {
        counted(counter)
    } else {
        counter
    }
}

impl IncrementalRunnerDiagnostics {
    /// Every counter is zero.
    pub open spec fn zero() -> Self {
        IncrementalRunnerDiagnostics {
            run_once_calls: 0,
            command_ready_batches: 0,
            backend_ready_batches: 0,
            l2_rx_ready_batches: 0,
            timer_ready_batches: 0,
            wait_ready_calls: 0,
            wait_ready_completions: 0,
            immediate_ready_completions: 0,
            wait_ready_errors: 0,
            operations_started: 0,
            cancellations_requested: 0,
            pending_polls: 0,
            budget_exhaustions: 0,
            operations_completed: 0,
            operations_cancelled: 0,
            operations_failed: 0,
            driver_errors: 0,
            protocol_errors: 0,
        }
    }

    /// Construct counters that are all zero.
    pub fn empty() -> (counters: Self)
        ensures
            counters == Self::zero(),
    {
        IncrementalRunnerDiagnostics {
            run_once_calls: 0,
            command_ready_batches: 0,
            backend_ready_batches: 0,
            l2_rx_ready_batches: 0,
            timer_ready_batches: 0,
            wait_ready_calls: 0,
            wait_ready_completions: 0,
            immediate_ready_completions: 0,
            wait_ready_errors: 0,
            operations_started: 0,
            cancellations_requested: 0,
            pending_polls: 0,
            budget_exhaustions: 0,
            operations_completed: 0,
            operations_cancelled: 0,
            operations_failed: 0,
            driver_errors: 0,
            protocol_errors: 0,
        }
    }

    /// Count once more, saturating at `u32::MAX`.
    pub fn increment(counter: &mut u32)
        ensures
            *final(counter) == counted(*old(counter)),
    {
        *counter = counter.saturating_add(1);
    }

    /// The counters after a batch of `ready` sources.
    pub open spec fn with_ready(self, ready: WaitSet) -> Self {
        IncrementalRunnerDiagnostics {
            command_ready_batches: counted_if(ready.has(COMMAND_BIT), self.command_ready_batches),
            backend_ready_batches: counted_if(ready.has(BACKEND_BIT), self.backend_ready_batches),
            l2_rx_ready_batches: counted_if(ready.has(L2_RX_BIT), self.l2_rx_ready_batches),
            timer_ready_batches: counted_if(ready.has(TIMER_BIT), self.timer_ready_batches),
            ..self
        }
    }

    /// Count each ready source once.
    pub fn record_ready(&mut self, ready: WaitSet)
        ensures
            *final(self) == old(self).with_ready(ready),
    {
        if ready.contains(WaitSet::command()) {
            Self::increment(&mut self.command_ready_batches);
        }
        if ready.contains(WaitSet::backend()) {
            Self::increment(&mut self.backend_ready_batches);
        }
        if ready.contains(WaitSet::l2_rx()) {
            Self::increment(&mut self.l2_rx_ready_batches);
        }
        if ready.contains(WaitSet::timer()) {
            Self::increment(&mut self.timer_ready_batches);
        }
    }

    /// The counters after `event`: one counter per kind of event, none for an
    /// idle or waiting step.
    pub open spec fn with_event(self, event: IncrementalDriverEvent) -> Self {
        IncrementalRunnerDiagnostics {
            operations_started: counted_if(event is Started, self.operations_started),
            cancellations_requested: counted_if(
                event is CancelRequested,
                self.cancellations_requested,
            ),
            pending_polls: counted_if(event is Pending, self.pending_polls),
            budget_exhaustions: counted_if(event is BudgetExhausted, self.budget_exhaustions),
            operations_completed: counted_if(event is Completed, self.operations_completed),
            operations_cancelled: counted_if(event is Cancelled, self.operations_cancelled),
            operations_failed: counted_if(event is Failed, self.operations_failed),
            ..self
        }
    }

    /// Count the event under its kind.
    pub fn record_event(&mut self, event: IncrementalDriverEvent)
        ensures
            *final(self) == old(self).with_event(event),
    {
        match event {
            IncrementalDriverEvent::Started { .. } => {
                Self::increment(&mut self.operations_started);
            },
            IncrementalDriverEvent::CancelRequested { .. } => {
                Self::increment(&mut self.cancellations_requested);
            },
            IncrementalDriverEvent::Pending { .. } => {
                Self::increment(&mut self.pending_polls);
            },
            IncrementalDriverEvent::BudgetExhausted { .. } => {
                Self::increment(&mut self.budget_exhaustions);
            },
            IncrementalDriverEvent::Completed { .. } => {
                Self::increment(&mut self.operations_completed);
            },
            IncrementalDriverEvent::Cancelled { .. } => {
                Self::increment(&mut self.operations_cancelled);
            },
            IncrementalDriverEvent::Failed { .. } => {
                Self::increment(&mut self.operations_failed);
            },
            IncrementalDriverEvent::Idle | IncrementalDriverEvent::Waiting { .. } => {},
        }
    }

    /// The counters in declaration order.
    pub open spec fn view(&self) -> Seq<u32> {
        seq![
            self.run_once_calls,
            self.command_ready_batches,
            self.backend_ready_batches,
            self.l2_rx_ready_batches,
            self.timer_ready_batches,
            self.wait_ready_calls,
            self.wait_ready_completions,
            self.immediate_ready_completions,
            self.wait_ready_errors,
            self.operations_started,
            self.cancellations_requested,
            self.pending_polls,
            self.budget_exhaustions,
            self.operations_completed,
            self.operations_cancelled,
            self.operations_failed,
            self.driver_errors,
            self.protocol_errors,
        ]
    }

    /// The counters in declaration order.
    pub fn as_array(self) -> (values: [u32; INCREMENTAL_DIAGNOSTIC_COUNTERS])
        ensures
            values@ == self@,
    {
        [
            self.run_once_calls,
            self.command_ready_batches,
            self.backend_ready_batches,
            self.l2_rx_ready_batches,
            self.timer_ready_batches,
            self.wait_ready_calls,
            self.wait_ready_completions,
            self.immediate_ready_completions,
            self.wait_ready_errors,
            self.operations_started,
            self.cancellations_requested,
            self.pending_polls,
            self.budget_exhaustions,
            self.operations_completed,
            self.operations_cancelled,
            self.operations_failed,
            self.driver_errors,
            self.protocol_errors,
        ]
    }

    /// Counters from their values in declaration order.
    pub fn from_array(values: [u32; INCREMENTAL_DIAGNOSTIC_COUNTERS]) -> (counters: Self)
        ensures
            counters@ == values@,
    {
        let counters = IncrementalRunnerDiagnostics {
            run_once_calls: values[0],
            command_ready_batches: values[1],
            backend_ready_batches: values[2],
            l2_rx_ready_batches: values[3],
            timer_ready_batches: values[4],
            wait_ready_calls: values[5],
            wait_ready_completions: values[6],
            immediate_ready_completions: values[7],
            wait_ready_errors: values[8],
            operations_started: values[9],
            cancellations_requested: values[10],
            pending_polls: values[11],
            budget_exhaustions: values[12],
            operations_completed: values[13],
            operations_cancelled: values[14],
            operations_failed: values[15],
            driver_errors: values[16],
            protocol_errors: values[17],
        };
        assert(counters@ =~= values@);
        counters
    }
}

/// The array form loses nothing: equal arrays mean equal counters.
pub proof fn counters_are_their_array(
    a: IncrementalRunnerDiagnostics,
    b: IncrementalRunnerDiagnostics,
)
    requires
        a@ == b@,
    ensures
        a == b,
{
    assert(a@[0] == b@[0]);
    assert(a@[1] == b@[1]);
    assert(a@[2] == b@[2]);
    assert(a@[3] == b@[3]);
    assert(a@[4] == b@[4]);
    assert(a@[5] == b@[5]);
    assert(a@[6] == b@[6]);
    assert(a@[7] == b@[7]);
    assert(a@[8] == b@[8]);
    assert(a@[9] == b@[9]);
    assert(a@[10] == b@[10]);
    assert(a@[11] == b@[11]);
    assert(a@[12] == b@[12]);
    assert(a@[13] == b@[13]);
    assert(a@[14] == b@[14]);
    assert(a@[15] == b@[15]);
    assert(a@[16] == b@[16]);
    assert(a@[17] == b@[17]);
}

/// A counter counts one by one and stays at its largest value.
pub proof fn counter_saturates(counter: u32)
    ensures
        counter < u32::MAX ==> counted(counter) - counter == 1,
        counted(u32::MAX) == u32::MAX,
        counted_if(false, counter) == counter,
        counted_if(true, counter) == counted(counter),
{
}

/// An event moves the one counter of its kind, and an idle or waiting step none.
pub proof fn event_is_counted_under_its_kind(
    counters: IncrementalRunnerDiagnostics,
    event: IncrementalDriverEvent,
    index: int,
)
    requires
        0 <= index < 18,
        counters@[index] < u32::MAX,
    ensures
        counters.with_event(event)@[index] - counters@[index] == if (match event {
            IncrementalDriverEvent::Started { .. } => index == 9,
            IncrementalDriverEvent::CancelRequested { .. } => index == 10,
            IncrementalDriverEvent::Pending { .. } => index == 11,
            IncrementalDriverEvent::BudgetExhausted { .. } => index == 12,
            IncrementalDriverEvent::Completed { .. } => index == 13,
            IncrementalDriverEvent::Cancelled { .. } => index == 14,
            IncrementalDriverEvent::Failed { .. } => index == 15,
            IncrementalDriverEvent::Idle => false,
            IncrementalDriverEvent::Waiting { .. } => false,
        }) {
            1int
        } else {
            0int
        },
{
}

/// A batch of ready sources moves one counter for each of the four sources in it,
/// and no other.
pub proof fn ready_sources_are_counted_each(
    counters: IncrementalRunnerDiagnostics,
    ready: WaitSet,
    index: int,
)
    requires
        0 <= index < 18,
        counters@[index] < u32::MAX,
    ensures
        counters.with_ready(ready)@[index] - counters@[index] == if (index == 1 && ready@ & 1 == 1)
            || (index == 2 && ready@ & 2 == 2) || (index == 3 && ready@ & 4 == 4) || (index == 4
            && ready@ & 8 == 8) {
            1int
        } else {
            0int
        },
{
}

/// The array form and the counters turn into each other without loss, counter by
/// counter in declaration order.
pub proof fn array_form_comes_back(
    counters: IncrementalRunnerDiagnostics,
    values: [u32; INCREMENTAL_DIAGNOSTIC_COUNTERS],
    back: IncrementalRunnerDiagnostics,
)
    requires
        call_ensures(IncrementalRunnerDiagnostics::as_array, (counters,), values),
        call_ensures(IncrementalRunnerDiagnostics::from_array, (values,), back),
    ensures
        back == counters,
        values@[0] == counters.run_once_calls,
        values@[5] == counters.wait_ready_calls,
        values@[6] == counters.wait_ready_completions,
        values@[7] == counters.immediate_ready_completions,
        values@[8] == counters.wait_ready_errors,
        values@[16] == counters.driver_errors,
        values@[17] == counters.protocol_errors,
{
    counters_are_their_array(back, counters);
}

} // verus!
