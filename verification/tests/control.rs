use core::task::{Context, Waker};

use hisi_rf_core::control::{
    ControlCompleteErrorKind, ControlCompletion, ControlId, ControlState, EventQueueDiagnostics,
    EventState, LifecycleState, LifecycleStateError, LifecycleStopError,
};
use hisi_rf_core::PollState;

fn state() -> ControlState<u32, u32> {
    ControlState::new()
}

fn context() -> Context<'static> {
    Context::from_waker(Waker::noop())
}

#[test]
fn state_can_only_be_claimed_once() {
    let mut state = state();
    assert!(state.claim().is_some());
    assert!(state.claim().is_none());
}

#[test]
fn command_and_completion_have_single_owners() {
    let mut state = state();
    let (mut sender, mut receiver) = state.claim().unwrap();
    let id = sender.try_submit(&mut state, 7).unwrap();
    assert_eq!(sender.outstanding(), Some(id));

    let rejected = sender.try_submit(&mut state, 8).unwrap_err();
    assert_eq!(rejected.into_inner(), 8);

    let command = receiver.try_take_command(&mut state).unwrap();
    assert_eq!(command.id(), id);
    assert_eq!(command.into_inner(), 7);
    assert_eq!(receiver.active(), Some(id));
    assert!(receiver.try_take_command(&mut state).is_none());

    receiver.complete(&mut state, id, 9).unwrap();
    assert_eq!(receiver.active(), None);
    let completion = sender.try_take_completion(&mut state).unwrap().unwrap();
    assert_eq!(completion.id(), id);
    assert_eq!(completion.into_inner(), 9);
    assert_eq!(sender.outstanding(), None);
}

#[test]
fn stale_and_duplicate_completions_fail_closed() {
    let mut state = state();
    let (mut sender, mut receiver) = state.claim().unwrap();
    let id = sender.try_submit(&mut state, 1).unwrap();
    let _ = receiver.try_take_command(&mut state).unwrap();
    let stale = ControlId::try_from_raw(id.get().wrapping_add(1)).unwrap();
    let error = receiver.complete(&mut state, stale, 2).unwrap_err();
    assert_eq!(error.kind(), ControlCompleteErrorKind::StaleCommand);
    assert_eq!(error.into_inner(), 2);
    assert_eq!(receiver.active(), Some(id));

    receiver.complete(&mut state, id, 3).unwrap();
    let error = receiver.complete(&mut state, id, 4).unwrap_err();
    assert_eq!(error.kind(), ControlCompleteErrorKind::NoActiveCommand);
    assert_eq!(error.into_inner(), 4);
    assert_eq!(
        sender
            .try_take_completion(&mut state)
            .unwrap()
            .unwrap()
            .into_inner(),
        3
    );
}

#[test]
fn unsolicited_completion_is_not_accepted() {
    let mut state = state();
    let (mut sender, _receiver) = state.claim().unwrap();
    let id = ControlId::try_from_raw(1).unwrap();
    state.signal_completion(ControlCompletion::new(id, 5));

    let error = sender.try_take_completion(&mut state).unwrap_err();
    assert_eq!(error.expected(), None);
    assert_eq!(error.received(), id);
    assert_eq!(error.into_inner(), 5);
    assert_eq!(sender.outstanding(), None);
}

#[test]
fn completion_of_another_command_is_returned_as_stale() {
    let mut state = state();
    let (mut sender, _receiver) = state.claim().unwrap();
    let id = sender.try_submit(&mut state, 1).unwrap();
    let other = ControlId::try_from_raw(77).unwrap();
    state.signal_completion(ControlCompletion::new(other, 5));
    let error = sender.try_take_completion(&mut state).unwrap_err();
    assert_eq!(error.expected(), Some(id));
    assert_eq!(error.received(), other);
    assert_eq!(sender.outstanding(), Some(id));
    assert!(sender.try_take_completion(&mut state).unwrap().is_none());
}

#[test]
fn control_identities_count_up_and_are_not_zero() {
    assert!(ControlId::try_from_raw(0).is_none());
    let mut state = state();
    let (mut sender, mut receiver) = state.claim().unwrap();
    for expected in 1..=3u32 {
        let id = sender.try_submit(&mut state, 0).unwrap();
        assert_eq!(id.get(), expected);
        let _ = receiver.try_take_command(&mut state).unwrap();
        receiver.complete(&mut state, id, 0).unwrap();
        let _ = sender.try_take_completion(&mut state).unwrap().unwrap();
    }
}

#[test]
fn event_queue_is_separate_bounded_and_conservative() {
    let mut state = EventState::<u32, 2>::new();
    let (mut producer, mut consumer) = state.claim().unwrap();
    assert!(state.claim().is_none());

    producer.try_publish(&mut state, 10).unwrap();
    producer.try_publish(&mut state, 20).unwrap();
    assert_eq!(
        producer
            .try_publish(&mut state, 30)
            .unwrap_err()
            .into_inner(),
        30
    );
    assert_eq!(
        producer.diagnostics(&state),
        EventQueueDiagnostics {
            accepted: 2,
            consumed: 0,
            dropped: 1,
            pending: 2,
            high_water: 2,
        }
    );

    assert_eq!(consumer.try_next_event(&mut state), Some(10));
    assert_eq!(consumer.try_next_event(&mut state), Some(20));
    assert_eq!(consumer.try_next_event(&mut state), None);
    let diagnostics = consumer.diagnostics(&state);
    assert_eq!(diagnostics.accepted, diagnostics.consumed);
    assert_eq!(diagnostics.pending, 0);
    assert_eq!(diagnostics.dropped, 1);
}

#[test]
fn async_event_wait_is_woken_by_the_producer() {
    let mut state = EventState::<u32, 1>::new();
    let (mut producer, mut consumer) = state.claim().unwrap();
    let mut context = context();
    assert!(matches!(
        consumer.next_event(&mut state, &mut context),
        PollState::Pending
    ));
    producer.try_publish(&mut state, 42).unwrap();
    assert_eq!(
        consumer.next_event(&mut state, &mut context),
        PollState::Ready(42)
    );
}

#[test]
fn explicit_lifecycle_stop_waits_for_matching_terminal_result() {
    let mut state = LifecycleState::<u32>::new();
    let mut runner = state.claim().unwrap();
    assert!(state.claim().is_none());
    let id = runner.begin(&mut state).unwrap();
    let mut guard = runner.activate(&mut state, id).unwrap();
    let mut context = context();
    assert!(matches!(
        guard.stop(&mut state, &mut context),
        PollState::Pending
    ));
    assert_eq!(runner.try_take_cancel(&mut state), Some(id));
    runner.finish(&mut state, id, Ok(())).unwrap();
    assert_eq!(
        guard.stop(&mut state, &mut context),
        PollState::Ready(Ok(()))
    );
    assert!(guard.is_over());
    assert_ne!(runner.begin(&mut state).unwrap(), id);
}

#[test]
fn dropped_lifecycle_guard_requests_detached_best_effort_cancel() {
    let mut state = LifecycleState::<u32>::new();
    let mut runner = state.claim().unwrap();
    let id = runner.begin(&mut state).unwrap();
    let mut guard = runner.activate(&mut state, id).unwrap();
    guard.release(&mut state);
    assert_eq!(runner.try_take_cancel(&mut state), Some(id));
    runner.finish(&mut state, id, Err(7)).unwrap();
    assert!(runner.begin(&mut state).is_ok());
}

#[test]
fn dropping_an_inflight_stop_waiter_does_not_strand_the_lifecycle() {
    let mut state = LifecycleState::<u32>::new();
    let mut runner = state.claim().unwrap();
    let id = runner.begin(&mut state).unwrap();
    let mut guard = runner.activate(&mut state, id).unwrap();
    let mut context = context();
    assert!(matches!(
        guard.stop(&mut state, &mut context),
        PollState::Pending
    ));
    assert_eq!(runner.try_take_cancel(&mut state), Some(id));
    guard.release(&mut state);
    runner.finish(&mut state, id, Ok(())).unwrap();
    assert!(runner.begin(&mut state).is_ok());
}

#[test]
fn releasing_a_waiter_after_the_result_frees_the_lifecycle() {
    let mut state = LifecycleState::<u32>::new();
    let mut runner = state.claim().unwrap();
    let id = runner.begin(&mut state).unwrap();
    let mut guard = runner.activate(&mut state, id).unwrap();
    let mut context = context();
    assert!(matches!(
        guard.stop(&mut state, &mut context),
        PollState::Pending
    ));
    runner.finish(&mut state, id, Ok(())).unwrap();
    assert_eq!(runner.begin(&mut state), Err(LifecycleStateError::Busy));
    guard.release(&mut state);
    guard.release(&mut state);
    assert!(runner.begin(&mut state).is_ok());
}

#[test]
fn explicit_lifecycle_stop_preserves_backend_error() {
    let mut state = LifecycleState::<u32>::new();
    let mut runner = state.claim().unwrap();
    let id = runner.begin(&mut state).unwrap();
    let mut guard = runner.activate(&mut state, id).unwrap();
    let mut context = context();
    assert!(matches!(
        guard.stop(&mut state, &mut context),
        PollState::Pending
    ));
    assert_eq!(runner.try_take_cancel(&mut state), Some(id));
    runner.finish(&mut state, id, Err(0x1234)).unwrap();
    assert_eq!(
        guard.stop(&mut state, &mut context),
        PollState::Ready(Err(LifecycleStopError::Backend(0x1234)))
    );
}

#[test]
fn lifecycle_generation_and_transitions_fail_closed() {
    let mut state = LifecycleState::<u32>::new();
    let mut runner = state.claim().unwrap();
    let first = runner.begin(&mut state).unwrap();
    assert_eq!(runner.begin(&mut state), Err(LifecycleStateError::Busy));
    assert_eq!(runner.abort_start(&mut state, first), Ok(()));
    let second = runner.begin(&mut state).unwrap();
    assert_ne!(first, second);
    assert!(matches!(
        runner.activate(&mut state, first),
        Err(LifecycleStateError::Stale)
    ));
    let mut guard = runner.activate(&mut state, second).unwrap();
    assert_eq!(
        runner.finish(&mut state, first, Ok(())),
        Err(LifecycleStateError::Stale)
    );
    guard.release(&mut state);
    assert_eq!(runner.try_take_cancel(&mut state), Some(second));
    runner.finish(&mut state, second, Ok(())).unwrap();
}

#[test]
fn guard_of_another_state_is_stale() {
    let mut state = LifecycleState::<u32>::new();
    let mut runner = state.claim().unwrap();
    let id = runner.begin(&mut state).unwrap();
    let mut guard = runner.activate(&mut state, id).unwrap();
    assert_eq!(guard.id(), id);
    assert_eq!(id.get(), 1);
    let mut other = LifecycleState::<u32>::new();
    let mut context = context();
    assert_eq!(
        guard.stop(&mut other, &mut context),
        PollState::Ready(Err(LifecycleStopError::Stale))
    );
    assert!(runner.try_take_cancel(&mut other).is_none());
    assert_eq!(
        runner.abort_start(&mut other, id),
        Err(LifecycleStateError::Stale)
    );
}

#[test]
fn event_counters_account_for_every_publication() {
    let mut state = EventState::<u8, 2>::new();
    let (mut producer, mut consumer) = state.claim().unwrap();
    let mut calls = 0;
    for event in 0..5u8 {
        calls += 1;
        if let Err(error) = producer.try_publish(&mut state, event) {
            assert_eq!(error.into_inner(), event);
        }
        if event == 2 {
            assert_eq!(consumer.try_next_event(&mut state), Some(0));
        }
        let counters = producer.diagnostics(&state);
        assert_eq!(counters.accepted + counters.dropped, calls);
        assert_eq!(counters.accepted as usize, counters.consumed as usize + counters.pending);
        assert!(counters.pending <= counters.high_water && counters.high_water <= 2);
    }
    assert_eq!(consumer.try_next_event(&mut state), Some(1));
    assert_eq!(consumer.try_next_event(&mut state), Some(3));
    assert_eq!(consumer.try_next_event(&mut state), None);
}

#[test]
fn backend_result_is_accepted_once_and_only_after_a_cancellation() {
    let mut state = LifecycleState::<u8>::new();
    let mut runner = state.claim().unwrap();
    let id = runner.begin(&mut state).unwrap();
    let mut guard = runner.activate(&mut state, id).unwrap();
    assert_eq!(
        runner.finish(&mut state, id, Ok(())),
        Err(LifecycleStateError::Stale)
    );
    assert!(matches!(
        guard.stop(&mut state, &mut context()),
        PollState::Pending
    ));
    assert_eq!(runner.try_take_cancel(&mut state), Some(id));
    assert!(matches!(
        guard.stop(&mut state, &mut context()),
        PollState::Pending
    ));
    assert_eq!(runner.try_take_cancel(&mut state), None);
    assert_eq!(runner.begin(&mut state), Err(LifecycleStateError::Busy));
    runner.finish(&mut state, id, Err(7)).unwrap();
    assert_eq!(
        runner.finish(&mut state, id, Ok(())),
        Err(LifecycleStateError::Stale)
    );
    assert_eq!(runner.begin(&mut state), Err(LifecycleStateError::Busy));
    assert_eq!(
        guard.stop(&mut state, &mut context()),
        PollState::Ready(Err(LifecycleStopError::Backend(7)))
    );
    assert_ne!(runner.begin(&mut state).unwrap(), id);
}
