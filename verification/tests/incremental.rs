use hisi_rf_core::{
    BackendError, CancelDirective, CancelOutcome, FairWakeSelector, IncrementalCompletion,
    IncrementalRequest, IncrementalRunnerState, IncrementalWifiBackend, OperationId,
    OperationLifecycle, OperationStateError, OperationTracker, PollDisposition, RunnerStateError,
    RunnerStep, RunnerTransition, ScanResult, WaitSet, WakeReason, WifiConfig,
    WorkBudget, WorkReport,
};

struct FakeIncrementalBackend {
    active: Option<OperationId>,
    polls: u8,
}

impl IncrementalWifiBackend for FakeIncrementalBackend {
    fn start(
        &mut self,
        id: OperationId,
        _request: IncrementalRequest,
    ) -> Result<(), BackendError> {
        if self.active.replace(id).is_some() {
            return Err(BackendError::new(hisi_rf_core::BackendErrorClass::Busy, 1));
        }
        self.polls = 0;
        Ok(())
    }

    fn poll(
        &mut self,
        id: OperationId,
        _reason: WakeReason,
        budget: WorkBudget,
        _scan_output: &mut [ScanResult],
    ) -> Result<WorkReport, BackendError> {
        if self.active != Some(id) {
            return Err(BackendError::new(hisi_rf_core::BackendErrorClass::Other, 2));
        }
        self.polls += 1;
        let disposition = if self.polls == 1 {
            PollDisposition::Pending(WaitSet::backend().union(WaitSet::timer()))
        } else {
            self.active = None;
            PollDisposition::Complete(IncrementalCompletion::Initialized)
        };
        WorkReport::try_new(id, budget, 1, 10, true, disposition)
            .ok_or_else(|| BackendError::new(hisi_rf_core::BackendErrorClass::Other, 3))
    }

    fn cancel(&mut self, id: OperationId) -> Result<(), BackendError> {
        if self.active == Some(id) {
            self.active = None;
            Ok(())
        } else {
            Err(BackendError::new(hisi_rf_core::BackendErrorClass::Other, 2))
        }
    }

    fn next_deadline_us(&self, id: OperationId) -> Option<u64> {
        (self.active == Some(id)).then_some(1_000)
    }
}

#[test]
fn stale_completion_cannot_commit_after_slot_reuse() {
    let mut tracker = OperationTracker::new();
    let first = tracker.queue(0).unwrap();
    tracker.mark_started(first).unwrap();
    assert!(!tracker.commit_terminal(first).unwrap());
    tracker.reap(first).unwrap();

    let second = tracker.queue(0).unwrap();
    assert_ne!(first.generation(), second.generation());
    assert_eq!(
        tracker.commit_terminal(first),
        Err(OperationStateError::Stale)
    );
    assert_eq!(
        tracker.current(),
        Some((second, OperationLifecycle::Queued))
    );
}

#[test]
fn cancellation_is_idempotent_and_suppresses_late_success() {
    let mut tracker = OperationTracker::new();
    let id = tracker.queue(0).unwrap();
    tracker.mark_started(id).unwrap();
    assert_eq!(tracker.request_cancel(id), Ok(CancelOutcome::Requested));
    assert_eq!(
        tracker.request_cancel(id),
        Ok(CancelOutcome::AlreadyRequested)
    );
    assert!(tracker.commit_terminal(id).unwrap());
    assert_eq!(
        tracker.request_cancel(id),
        Err(OperationStateError::AlreadyTerminal)
    );
    tracker.reap(id).unwrap();
}

#[test]
fn work_report_and_wait_set_enforce_both_budget_dimensions() {
    let budget = WorkBudget::try_new(3, 200).unwrap();
    let wait = WaitSet::command()
        .union(WaitSet::backend())
        .union(WaitSet::timer());
    let mut tracker = OperationTracker::new();
    let id = tracker.queue(0).unwrap();
    let report =
        WorkReport::try_new(id, budget, 3, 200, true, PollDisposition::Pending(wait)).unwrap();
    assert_eq!(report.operation(), id);
    assert_eq!(report.consumed_events(), 3);
    assert_eq!(report.elapsed_us(), 200);
    assert!(report.made_progress());
    assert!(wait.contains(WaitSet::command()));
    assert!(wait.contains(WaitSet::backend()));
    assert!(!wait.contains(WaitSet::l2_rx()));
    assert!(
        WorkReport::try_new(id, budget, 4, 1, true, PollDisposition::Pending(wait)).is_none()
    );
    assert!(
        WorkReport::try_new(id, budget, 1, 201, true, PollDisposition::Pending(wait)).is_none()
    );
    assert!(
        WorkReport::try_new(
            id,
            budget,
            1,
            1,
            true,
            PollDisposition::BudgetExhausted(wait),
        )
        .is_none()
    );
    assert!(
        WorkReport::try_new(
            id,
            budget,
            3,
            1,
            true,
            PollDisposition::BudgetExhausted(wait),
        )
        .is_some()
    );
    assert!(
        WorkReport::try_new(
            id,
            budget,
            0,
            0,
            false,
            PollDisposition::Pending(WaitSet::empty()),
        )
        .is_none()
    );
}

#[test]
fn incremental_backend_advances_only_through_bounded_polling() {
    let mut tracker = OperationTracker::new();
    let mut backend = FakeIncrementalBackend {
        active: None,
        polls: 0,
    };
    let id = tracker.queue(0).unwrap();
    backend
        .start(id, IncrementalRequest::Initialize(WifiConfig::default()))
        .unwrap();
    tracker.mark_started(id).unwrap();

    let budget = WorkBudget::try_new(2, 50).unwrap();
    let mut scan_results = [ScanResult::empty(); 1];
    let first = backend
        .poll(id, WakeReason::Backend, budget, &mut scan_results)
        .unwrap();
    assert_eq!(
        first.disposition(),
        PollDisposition::Pending(WaitSet::backend().union(WaitSet::timer()))
    );
    let second = backend
        .poll(id, WakeReason::Timer, budget, &mut scan_results)
        .unwrap();
    assert_eq!(
        second.disposition(),
        PollDisposition::Complete(IncrementalCompletion::Initialized)
    );
    assert!(!tracker.commit_terminal(id).unwrap());
    tracker.reap(id).unwrap();
}

#[test]
fn fair_selector_rotates_across_continuously_ready_sources() {
    let all = WaitSet::command()
        .union(WaitSet::backend())
        .union(WaitSet::l2_rx())
        .union(WaitSet::timer());
    let mut selector = FairWakeSelector::new();
    assert_eq!(selector.select(all, all), Some(WakeReason::Command));
    assert_eq!(selector.select(all, all), Some(WakeReason::Backend));
    assert_eq!(selector.select(all, all), Some(WakeReason::L2Rx));
    assert_eq!(selector.select(all, all), Some(WakeReason::Timer));
    assert_eq!(selector.select(all, all), Some(WakeReason::Command));
}

#[test]
fn cancellation_before_start_completes_without_backend_notification() {
    let mut runner = IncrementalRunnerState::new();
    let id = runner.queue(0).unwrap();
    assert_eq!(
        runner.queue(1),
        Err(RunnerStateError::Operation(OperationStateError::Busy))
    );
    assert_eq!(
        runner.request_cancel(id),
        Ok(CancelDirective::CompleteLocally)
    );
    assert_eq!(runner.current(), Some((id, OperationLifecycle::Terminal)));
    assert_eq!(runner.select_step(WaitSet::command()), RunnerStep::Idle);
    runner.reap(id).unwrap();
    assert_eq!(runner.current(), None);
}

#[test]
fn queued_operation_rejects_a_backend_report() {
    let mut runner = IncrementalRunnerState::new();
    let id = runner.queue(0).unwrap();
    let budget = WorkBudget::try_new(1, 10).unwrap();
    let report = WorkReport::try_new(
        id,
        budget,
        1,
        10,
        true,
        PollDisposition::Complete(IncrementalCompletion::Initialized),
    )
    .unwrap();
    assert_eq!(
        runner.apply_report(id, report),
        Err(RunnerStateError::Operation(
            OperationStateError::InvalidTransition
        ))
    );
}

#[test]
fn start_failure_terminalizes_and_releases_the_slot() {
    let mut runner = IncrementalRunnerState::new();
    let id = runner.queue(0).unwrap();
    let error = BackendError::new(hisi_rf_core::BackendErrorClass::Initialize, 7);
    assert_eq!(
        runner.reject_start(id, error),
        Ok(RunnerTransition::Failed {
            error,
            cancellation_pending: false,
        })
    );
    runner.reap(id).unwrap();
    assert!(runner.queue(0).is_ok());
}

#[test]
fn poll_failure_preserves_whether_cancellation_was_pending() {
    let error = BackendError::new(hisi_rf_core::BackendErrorClass::Other, 9);

    let mut active = IncrementalRunnerState::new();
    let active_id = active.queue(0).unwrap();
    active.mark_started(active_id).unwrap();
    assert_eq!(
        active.apply_error(active_id, error),
        Ok(RunnerTransition::Failed {
            error,
            cancellation_pending: false,
        })
    );

    let mut cancelling = IncrementalRunnerState::new();
    let cancelling_id = cancelling.queue(0).unwrap();
    cancelling.mark_started(cancelling_id).unwrap();
    assert_eq!(
        cancelling.request_cancel(cancelling_id),
        Ok(CancelDirective::NotifyBackend)
    );
    assert_eq!(
        cancelling.apply_error(cancelling_id, error),
        Ok(RunnerTransition::Failed {
            error,
            cancellation_pending: true,
        })
    );
}

#[test]
fn cancellation_after_start_suppresses_a_late_success() {
    let mut runner = IncrementalRunnerState::new();
    let id = runner.queue(0).unwrap();
    runner.mark_started(id).unwrap();
    assert_eq!(
        runner.request_cancel(id),
        Ok(CancelDirective::NotifyBackend)
    );
    let budget = WorkBudget::try_new(1, 10).unwrap();
    let report = WorkReport::try_new(
        id,
        budget,
        1,
        10,
        true,
        PollDisposition::Complete(IncrementalCompletion::Initialized),
    )
    .unwrap();
    assert_eq!(
        runner.apply_report(id, report),
        Ok(RunnerTransition::Cancelled {
            suppressed_completion: true,
        })
    );
}

#[test]
fn stale_report_cannot_complete_a_reused_runner_slot() {
    let mut runner = IncrementalRunnerState::new();
    let first = runner.queue(0).unwrap();
    runner.mark_started(first).unwrap();
    let budget = WorkBudget::try_new(1, 10).unwrap();
    let first_report = WorkReport::try_new(
        first,
        budget,
        1,
        10,
        true,
        PollDisposition::Complete(IncrementalCompletion::Initialized),
    )
    .unwrap();
    runner.apply_report(first, first_report).unwrap();
    runner.reap(first).unwrap();

    let second = runner.queue(0).unwrap();
    runner.mark_started(second).unwrap();
    assert_eq!(
        runner.apply_report(second, first_report),
        Err(RunnerStateError::StaleReport {
            expected: second,
            actual: first,
        })
    );
    assert_eq!(
        runner.current(),
        Some((second, OperationLifecycle::Started))
    );
}

#[test]
fn runner_selects_control_without_starving_backend_rx_or_timer() {
    let mut runner = IncrementalRunnerState::new();
    let id = runner.queue(0).unwrap();
    runner.mark_started(id).unwrap();
    let budget = WorkBudget::try_new(4, 100).unwrap();
    let all = WaitSet::command()
        .union(WaitSet::backend())
        .union(WaitSet::l2_rx())
        .union(WaitSet::timer());
    let subscribed =
        WorkReport::try_new(id, budget, 1, 10, true, PollDisposition::Pending(all)).unwrap();
    runner.apply_report(id, subscribed).unwrap();

    assert_eq!(runner.select_step(all), RunnerStep::CommandReady(id));
    assert_eq!(
        runner.select_step(all),
        RunnerStep::PollBackend {
            operation: id,
            reason: WakeReason::Backend,
        }
    );
    assert_eq!(
        runner.select_step(all),
        RunnerStep::PollBackend {
            operation: id,
            reason: WakeReason::L2Rx,
        }
    );
    assert_eq!(
        runner.select_step(all),
        RunnerStep::PollBackend {
            operation: id,
            reason: WakeReason::Timer,
        }
    );
    assert_eq!(runner.select_step(all), RunnerStep::CommandReady(id));
}

#[test]
fn budget_exhaustion_requires_a_fair_follow_up_turn() {
    let mut runner = IncrementalRunnerState::new();
    let id = runner.queue(0).unwrap();
    runner.mark_started(id).unwrap();
    let budget = WorkBudget::try_new(2, 100).unwrap();
    let wait_for = WaitSet::backend().union(WaitSet::timer());
    let report = WorkReport::try_new(
        id,
        budget,
        2,
        20,
        true,
        PollDisposition::BudgetExhausted(wait_for),
    )
    .unwrap();
    assert_eq!(
        runner.apply_report(id, report),
        Ok(RunnerTransition::BudgetExhausted {
            made_progress: true,
            wait_for,
        })
    );
    assert_eq!(
        runner.select_step(WaitSet::command()),
        RunnerStep::Waiting(wait_for)
    );
    assert_eq!(
        runner.select_step(WaitSet::timer()),
        RunnerStep::PollBackend {
            operation: id,
            reason: WakeReason::Timer,
        }
    );
}

#[test]
fn tracker_refuses_transitions_out_of_order() {
    let mut tracker = OperationTracker::default();
    let id = tracker.queue(3).unwrap();
    assert_eq!(id.slot(), 3);
    assert_eq!(id.generation(), 1);
    assert_eq!(tracker.queue(3), Err(OperationStateError::Busy));
    assert_eq!(
        tracker.commit_terminal(id),
        Err(OperationStateError::InvalidTransition)
    );
    assert_eq!(tracker.reap(id), Err(OperationStateError::InvalidTransition));
    tracker.mark_started(id).unwrap();
    assert_eq!(
        tracker.mark_started(id),
        Err(OperationStateError::InvalidTransition)
    );
    assert_eq!(
        tracker.reject_queued(id),
        Err(OperationStateError::InvalidTransition)
    );
    assert_eq!(tracker.lifecycle(id), Ok(OperationLifecycle::Started));
    assert!(!tracker.commit_terminal(id).unwrap());
    assert_eq!(
        tracker.commit_terminal(id),
        Err(OperationStateError::AlreadyTerminal)
    );
    tracker.reap(id).unwrap();
    assert_eq!(tracker.lifecycle(id), Err(OperationStateError::Stale));
    assert_eq!(tracker.current(), None);
}

#[test]
fn consecutive_generations_differ() {
    let mut tracker = OperationTracker::new();
    let mut last: u32 = 0;
    for expected in 1..=5u32 {
        let id = tracker.queue(0).unwrap();
        assert_eq!(id.generation(), expected);
        assert_ne!(id.generation(), last);
        last = id.generation();
        tracker.reject_queued(id).unwrap();
        tracker.reap(id).unwrap();
    }
}

#[test]
fn budgets_are_not_empty() {
    assert!(WorkBudget::try_new(0, 1).is_none());
    assert!(WorkBudget::try_new(1, 0).is_none());
    let budget = WorkBudget::try_new(u16::MAX, u32::MAX).unwrap();
    assert_eq!(budget.max_events(), u16::MAX);
    assert_eq!(budget.max_time_us(), u32::MAX);
}

#[test]
fn wait_sets_are_bitmaps_of_their_sources() {
    let all = WaitSet::command()
        .union(WaitSet::backend())
        .union(WaitSet::l2_rx())
        .union(WaitSet::timer())
        .union(WaitSet::cancel());
    assert_eq!(all.bits(), 0x1f);
    assert_eq!(all.without(WaitSet::cancel()).bits(), 0x0f);
    assert_eq!(WaitSet::from_reason(WakeReason::Command), WaitSet::command());
    assert_eq!(WaitSet::from_reason(WakeReason::Timer).bits(), 8);
    assert!(WaitSet::default().is_empty());
    assert!(all.intersects(WaitSet::l2_rx()));
    assert!(!WaitSet::backend().intersects(WaitSet::timer()));
    assert!(!WaitSet::empty().contains(WaitSet::backend()));
    assert!(WaitSet::backend().contains(WaitSet::empty()));
}

#[test]
fn a_ready_source_waits_at_most_three_turns() {
    let all = WaitSet::command()
        .union(WaitSet::backend())
        .union(WaitSet::l2_rx())
        .union(WaitSet::timer());
    let mut selector = FairWakeSelector::default();
    assert_eq!(selector.select(all, WaitSet::timer()), Some(WakeReason::Timer));
    let mut seen = Vec::new();
    for _ in 0..4 {
        seen.push(selector.select(all, all).unwrap());
    }
    assert!(seen.contains(&WakeReason::Timer));
    assert_eq!(seen[3], WakeReason::Timer);
    assert_eq!(selector.select(all, WaitSet::empty()), None);
    assert_eq!(selector.select(WaitSet::backend(), WaitSet::l2_rx()), None);
}

#[test]
fn exhausted_time_alone_admits_an_exhaustion_report() {
    let mut tracker = OperationTracker::new();
    let id = tracker.queue(0).unwrap();
    let budget = WorkBudget::try_new(3, 200).unwrap();
    let wait = WaitSet::backend();
    assert!(WorkReport::try_new(
        id,
        budget,
        0,
        200,
        false,
        PollDisposition::BudgetExhausted(wait)
    )
    .is_some());
    let idle = WorkReport::try_new(
        id,
        budget,
        0,
        0,
        true,
        PollDisposition::Pending(WaitSet::empty()),
    )
    .unwrap();
    assert_eq!(idle.disposition(), PollDisposition::Pending(WaitSet::empty()));
}

#[test]
fn immediate_operation_is_polled_without_readiness() {
    let mut runner = IncrementalRunnerState::default();
    let id = runner.queue(0).unwrap();
    assert_eq!(runner.wait_for(), WaitSet::command());
    assert_eq!(
        runner.select_step(WaitSet::empty()),
        RunnerStep::Waiting(WaitSet::command())
    );
    runner.mark_started(id).unwrap();
    let budget = WorkBudget::try_new(1, 10).unwrap();
    let report = WorkReport::try_new(
        id,
        budget,
        1,
        1,
        true,
        PollDisposition::Pending(WaitSet::empty()),
    )
    .unwrap();
    assert_eq!(
        runner.apply_report(id, report),
        Ok(RunnerTransition::Pending {
            made_progress: true,
            wait_for: WaitSet::empty(),
        })
    );
    assert_eq!(
        runner.select_step(WaitSet::empty()),
        RunnerStep::PollBackend {
            operation: id,
            reason: WakeReason::Backend,
        }
    );
    // A source is not added to an operation that is polled at once.
    assert_eq!(
        runner.select_step_with(WaitSet::empty(), WaitSet::timer()),
        RunnerStep::PollBackend {
            operation: id,
            reason: WakeReason::Backend,
        }
    );
    assert!(runner.wait_for().is_empty());
    assert_eq!(
        runner.request_cancel(id),
        Ok(CancelDirective::NotifyBackend)
    );
    assert_eq!(
        runner.request_cancel(id),
        Ok(CancelDirective::AlreadyRequested)
    );
    assert_eq!(
        runner.select_step_with(WaitSet::empty(), WaitSet::timer()),
        RunnerStep::Waiting(WaitSet::backend().union(WaitSet::timer()))
    );
    assert_eq!(
        runner.select_step_with(WaitSet::timer(), WaitSet::timer()),
        RunnerStep::PollBackend {
            operation: id,
            reason: WakeReason::Timer,
        }
    );
    assert_eq!(runner.wait_for(), WaitSet::backend());
    assert_eq!(
        runner.select_step(WaitSet::timer()),
        RunnerStep::Waiting(WaitSet::backend())
    );
    let cancelled =
        WorkReport::try_new(id, budget, 1, 1, true, PollDisposition::Cancelled).unwrap();
    assert_eq!(
        runner.apply_report(id, cancelled),
        Ok(RunnerTransition::Cancelled {
            suppressed_completion: false,
        })
    );
    assert_eq!(
        runner.request_cancel(id),
        Err(RunnerStateError::Operation(
            OperationStateError::AlreadyTerminal
        ))
    );
}
