use hisi_rf_core::{
    CommandArbiter, CommandArbiterAction, CommandArbiterError, CommandSequence,
    IncrementalRunnerState, OperationId, OperationStateError, PendingCommand, RunnerStateError,
};

fn sequence(value: u32) -> CommandSequence {
    CommandSequence::try_from_raw(value).unwrap()
}

fn operation(runner: &mut IncrementalRunnerState) -> OperationId {
    let operation = runner.queue(0).unwrap();
    runner.mark_started(operation).unwrap();
    operation
}

#[test]
fn replacement_command_cancels_active_once_then_waits() {
    let mut runner = IncrementalRunnerState::new();
    let first_operation = operation(&mut runner);
    let mut arbiter = CommandArbiter::new();

    arbiter
        .submit(PendingCommand::new(sequence(1), "scan"))
        .unwrap();
    let first = arbiter.take_startable().unwrap();
    arbiter
        .mark_started(first.sequence(), first_operation)
        .unwrap();
    assert_eq!(first.into_inner(), "scan");

    arbiter
        .submit(PendingCommand::new(sequence(2), "disconnect"))
        .unwrap();
    assert_eq!(
        arbiter.action(),
        CommandArbiterAction::CancelActive(first_operation)
    );
    arbiter.mark_cancel_requested(first_operation).unwrap();
    assert_eq!(
        arbiter.action(),
        CommandArbiterAction::WaitActive(first_operation)
    );
    assert_eq!(arbiter.finish_active(first_operation), Ok(sequence(1)));
    assert_eq!(
        arbiter.action(),
        CommandArbiterAction::StartPending(sequence(2))
    );
}

#[test]
fn bounded_pending_queue_returns_the_rejected_command() {
    let mut arbiter = CommandArbiter::new();
    arbiter
        .submit(PendingCommand::new(sequence(1), 10))
        .unwrap();
    let error = arbiter
        .submit(PendingCommand::new(sequence(2), 20))
        .unwrap_err();
    assert_eq!(error.reason(), CommandArbiterError::Busy);
    assert_eq!(error.into_command().into_inner(), 20);
    assert_eq!(arbiter.pending_sequence(), Some(sequence(1)));
}

#[test]
fn stale_terminal_cannot_finish_a_reused_operation() {
    let mut runner = IncrementalRunnerState::new();
    let first_operation = operation(&mut runner);
    runner
        .apply_error(
            first_operation,
            hisi_rf_core::BackendError::new(hisi_rf_core::BackendErrorClass::Other, 1),
        )
        .unwrap();
    runner.reap(first_operation).unwrap();
    let second_operation = operation(&mut runner);

    let mut arbiter = CommandArbiter::new();
    arbiter
        .submit(PendingCommand::new(sequence(2), ()))
        .unwrap();
    let second = arbiter.take_startable().unwrap();
    arbiter
        .mark_started(second.sequence(), second_operation)
        .unwrap();
    assert_eq!(
        arbiter.finish_active(first_operation),
        Err(CommandArbiterError::StaleOperation)
    );
    assert_eq!(arbiter.active(), Some((sequence(2), second_operation)));
}

#[test]
fn rejected_start_does_not_poison_the_next_command() {
    let mut arbiter = CommandArbiter::new();
    arbiter
        .submit(PendingCommand::new(sequence(1), "first"))
        .unwrap();
    let first = arbiter.take_startable().unwrap();
    assert_eq!(
        arbiter.action(),
        CommandArbiterAction::Starting(sequence(1))
    );
    arbiter.reject_start(first.sequence()).unwrap();
    arbiter
        .submit(PendingCommand::new(sequence(2), "second"))
        .unwrap();
    assert_eq!(
        arbiter.action(),
        CommandArbiterAction::StartPending(sequence(2))
    );
}

#[test]
fn zero_sequence_and_stale_runner_identity_fail_closed() {
    assert_eq!(CommandSequence::try_from_raw(0), None);
    let mut runner = IncrementalRunnerState::new();
    let stale = runner.queue(0).unwrap();
    runner.mark_started(stale).unwrap();
    runner
        .apply_error(
            stale,
            hisi_rf_core::BackendError::new(hisi_rf_core::BackendErrorClass::Other, 1),
        )
        .unwrap();
    runner.reap(stale).unwrap();
    assert_eq!(
        runner.mark_started(stale),
        Err(RunnerStateError::Operation(OperationStateError::Stale))
    );
}

#[test]
fn arbiter_refuses_transitions_out_of_order() {
    let mut runner = IncrementalRunnerState::new();
    let started = operation(&mut runner);
    let mut arbiter: CommandArbiter<u8> = CommandArbiter::default();
    assert_eq!(arbiter.action(), CommandArbiterAction::Idle);
    assert_eq!(
        arbiter.take_startable().unwrap_err(),
        CommandArbiterError::InvalidTransition
    );
    assert_eq!(
        arbiter.mark_started(sequence(1), started),
        Err(CommandArbiterError::InvalidTransition)
    );
    assert_eq!(
        arbiter.reject_start(sequence(1)),
        Err(CommandArbiterError::InvalidTransition)
    );
    assert_eq!(
        arbiter.mark_cancel_requested(started),
        Err(CommandArbiterError::StaleOperation)
    );
    assert_eq!(
        arbiter.finish_active(started),
        Err(CommandArbiterError::StaleOperation)
    );
    arbiter.submit(PendingCommand::new(sequence(1), 9)).unwrap();
    assert!(!arbiter.can_submit());
    let first = arbiter.take_startable().unwrap();
    assert!(arbiter.can_submit());
    assert_eq!(
        arbiter.mark_started(sequence(2), started),
        Err(CommandArbiterError::InvalidTransition)
    );
    arbiter.mark_started(first.sequence(), started).unwrap();
    assert!(!arbiter.cancel_requested());
    arbiter.mark_cancel_requested(started).unwrap();
    assert!(arbiter.cancel_requested());
    assert_eq!(
        arbiter.mark_cancel_requested(started),
        Err(CommandArbiterError::InvalidTransition)
    );
}

#[test]
fn a_pending_command_can_be_withdrawn_by_its_sequence() {
    let mut arbiter = CommandArbiter::new();
    arbiter.submit(PendingCommand::new(sequence(4), "four")).unwrap();
    assert!(arbiter.withdraw(sequence(5)).is_none());
    assert_eq!(arbiter.pending_sequence(), Some(sequence(4)));
    assert_eq!(arbiter.withdraw(sequence(4)).unwrap().into_inner(), "four");
    assert_eq!(arbiter.pending_sequence(), None);
    assert_eq!(sequence(u32::MAX).get(), u32::MAX);
}
