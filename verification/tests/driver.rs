use hisi_rf_core::{
    BackendError, BackendErrorClass, CommandArbiterError, CommandSequence,
    IncrementalBackendDriver, IncrementalCompletion, IncrementalDriverError,
    IncrementalDriverEvent, IncrementalRequest, IncrementalWifiBackend, OperationId,
    PollDisposition, RunnerStateError, ScanResult, WaitSet, WakeReason, WifiConfig,
    WorkBudget, WorkReport,
};

#[derive(Clone, Copy)]
enum PollBehavior {
    Complete(IncrementalCompletion),
    Pending(WaitSet),
    Error(BackendError),
}

struct FakeBackend {
    fail_next_start: bool,
    cancel_error: Option<BackendError>,
    cancel_calls: u8,
    poll_behavior: PollBehavior,
}

impl FakeBackend {
    fn complete(completion: IncrementalCompletion) -> Self {
        Self {
            fail_next_start: false,
            cancel_error: None,
            cancel_calls: 0,
            poll_behavior: PollBehavior::Complete(completion),
        }
    }
}

impl IncrementalWifiBackend for FakeBackend {
    fn start(
        &mut self,
        _id: OperationId,
        _request: IncrementalRequest,
    ) -> Result<(), BackendError> {
        if self.fail_next_start {
            self.fail_next_start = false;
            Err(error(BackendErrorClass::Initialize, 1))
        } else {
            Ok(())
        }
    }

    fn poll(
        &mut self,
        id: OperationId,
        _reason: WakeReason,
        budget: WorkBudget,
        _scan_output: &mut [ScanResult],
    ) -> Result<WorkReport, BackendError> {
        match self.poll_behavior {
            PollBehavior::Complete(completion) => Ok(WorkReport::try_new(
                id,
                budget,
                1,
                1,
                true,
                PollDisposition::Complete(completion),
            )
            .unwrap()),
            PollBehavior::Pending(wait_for) => Ok(WorkReport::try_new(
                id,
                budget,
                1,
                1,
                true,
                PollDisposition::Pending(wait_for),
            )
            .unwrap()),
            PollBehavior::Error(error) => Err(error),
        }
    }

    fn cancel(&mut self, _id: OperationId) -> Result<(), BackendError> {
        self.cancel_calls += 1;
        match self.cancel_error {
            Some(error) => Err(error),
            None => Ok(()),
        }
    }

    fn next_deadline_us(&self, _id: OperationId) -> Option<u64> {
        Some(42)
    }
}

fn command_sequence(raw: u32) -> CommandSequence {
    CommandSequence::try_from_raw(raw).unwrap()
}

fn budget() -> WorkBudget {
    WorkBudget::try_new(4, 100).unwrap()
}

fn error(class: BackendErrorClass, code: u32) -> BackendError {
    BackendError::new(class, code)
}

fn empty_scan_output() -> [ScanResult; 1] {
    [ScanResult::empty(); 1]
}

#[test]
fn replacement_cancels_once_and_suppresses_late_success() {
    let backend = FakeBackend::complete(IncrementalCompletion::Initialized);
    let mut driver = IncrementalBackendDriver::new(backend, budget());
    let mut output = empty_scan_output();

    driver
        .submit(
            command_sequence(1),
            IncrementalRequest::Initialize(WifiConfig::default()),
        )
        .unwrap();
    let IncrementalDriverEvent::Started {
        operation: first, ..
    } = driver.drive_once(WaitSet::empty(), &mut output).unwrap()
    else {
        panic!("first request did not start");
    };
    driver
        .submit(
            command_sequence(2),
            IncrementalRequest::Disconnect(WifiConfig::default()),
        )
        .unwrap();
    assert_eq!(
        driver.drive_once(WaitSet::empty(), &mut output).unwrap(),
        IncrementalDriverEvent::CancelRequested {
            sequence: command_sequence(1),
            operation: first,
        }
    );
    assert_eq!(driver.backend().cancel_calls, 1);
    assert!(matches!(
        driver.drive_once(WaitSet::empty(), &mut output).unwrap(),
        IncrementalDriverEvent::Waiting { .. }
    ));
    assert_eq!(driver.backend().cancel_calls, 1);
    assert_eq!(
        driver.drive_once(WaitSet::backend(), &mut output).unwrap(),
        IncrementalDriverEvent::Cancelled {
            sequence: command_sequence(1),
            suppressed_completion: true,
        }
    );
    assert!(matches!(
        driver.drive_once(WaitSet::empty(), &mut output).unwrap(),
        IncrementalDriverEvent::Started {
            sequence,
            operation: _
        } if sequence == command_sequence(2)
    ));
}

#[test]
fn failed_start_is_reaped_before_next_command() {
    let mut backend = FakeBackend::complete(IncrementalCompletion::Initialized);
    backend.fail_next_start = true;
    let mut driver = IncrementalBackendDriver::new(backend, budget());
    let mut output = empty_scan_output();
    driver
        .submit(
            command_sequence(1),
            IncrementalRequest::Initialize(WifiConfig::default()),
        )
        .unwrap();
    assert!(matches!(
        driver.drive_once(WaitSet::empty(), &mut output).unwrap(),
        IncrementalDriverEvent::Failed {
            sequence,
            cancellation_pending: false,
            ..
        } if sequence == command_sequence(1)
    ));
    driver
        .submit(
            command_sequence(2),
            IncrementalRequest::Initialize(WifiConfig::default()),
        )
        .unwrap();
    assert!(matches!(
        driver.drive_once(WaitSet::empty(), &mut output).unwrap(),
        IncrementalDriverEvent::Started { sequence, .. } if sequence == command_sequence(2)
    ));
}

#[test]
fn failed_cancellation_is_terminal_before_replacement_starts() {
    let cancel_error = error(BackendErrorClass::Other, 7);
    let mut backend = FakeBackend::complete(IncrementalCompletion::Initialized);
    backend.cancel_error = Some(cancel_error);
    let mut driver = IncrementalBackendDriver::new(backend, budget());
    let mut output = empty_scan_output();
    driver
        .submit(
            command_sequence(1),
            IncrementalRequest::Initialize(WifiConfig::default()),
        )
        .unwrap();
    let _ = driver.drive_once(WaitSet::empty(), &mut output).unwrap();
    driver
        .submit(
            command_sequence(2),
            IncrementalRequest::Disconnect(WifiConfig::default()),
        )
        .unwrap();
    assert_eq!(
        driver.drive_once(WaitSet::empty(), &mut output).unwrap(),
        IncrementalDriverEvent::Failed {
            sequence: command_sequence(1),
            error: cancel_error,
            cancellation_pending: true,
        }
    );
    assert_eq!(driver.backend().cancel_calls, 1);
    assert!(matches!(
        driver.drive_once(WaitSet::empty(), &mut output).unwrap(),
        IncrementalDriverEvent::Started { sequence, .. }
            if sequence == command_sequence(2)
    ));
}

#[test]
fn poll_error_is_terminal_and_does_not_poison_reuse() {
    let backend_error = error(BackendErrorClass::Timeout, 9);
    let backend = FakeBackend {
        fail_next_start: false,
        cancel_error: None,
        cancel_calls: 0,
        poll_behavior: PollBehavior::Error(backend_error),
    };
    let mut driver = IncrementalBackendDriver::new(backend, budget());
    let mut output = empty_scan_output();
    driver
        .submit(
            command_sequence(1),
            IncrementalRequest::Initialize(WifiConfig::default()),
        )
        .unwrap();
    let _ = driver.drive_once(WaitSet::empty(), &mut output).unwrap();
    assert_eq!(
        driver.drive_once(WaitSet::backend(), &mut output).unwrap(),
        IncrementalDriverEvent::Failed {
            sequence: command_sequence(1),
            error: backend_error,
            cancellation_pending: false,
        }
    );
    driver
        .submit(
            command_sequence(2),
            IncrementalRequest::Initialize(WifiConfig::default()),
        )
        .unwrap();
    assert!(matches!(
        driver.drive_once(WaitSet::empty(), &mut output).unwrap(),
        IncrementalDriverEvent::Started { sequence, .. } if sequence == command_sequence(2)
    ));
}

#[test]
fn pending_report_retains_wait_set_and_deadline() {
    let backend = FakeBackend {
        fail_next_start: false,
        cancel_error: None,
        cancel_calls: 0,
        poll_behavior: PollBehavior::Pending(WaitSet::l2_rx().union(WaitSet::timer())),
    };
    let mut driver = IncrementalBackendDriver::new(backend, budget());
    let mut output = empty_scan_output();
    driver
        .submit(
            command_sequence(1),
            IncrementalRequest::Initialize(WifiConfig::default()),
        )
        .unwrap();
    let _ = driver.drive_once(WaitSet::empty(), &mut output).unwrap();
    assert_eq!(driver.next_deadline_us(), Some(42));
    assert!(matches!(
        driver.drive_once(WaitSet::backend(), &mut output).unwrap(),
        IncrementalDriverEvent::Pending {
            wait_for,
            made_progress: true,
            ..
        } if wait_for == WaitSet::l2_rx().union(WaitSet::timer())
    ));
    assert!(matches!(
        driver.drive_once(WaitSet::backend(), &mut output).unwrap(),
        IncrementalDriverEvent::Waiting { wait_for, .. }
            if wait_for == WaitSet::l2_rx().union(WaitSet::timer())
    ));
}

fn initialize() -> IncrementalRequest {
    IncrementalRequest::Initialize(WifiConfig::default())
}

#[test]
fn pending_slot_is_not_overwritten() {
    let backend = FakeBackend::complete(IncrementalCompletion::Initialized);
    let mut driver = IncrementalBackendDriver::new(backend, budget());
    assert!(driver.can_submit());
    driver.submit(command_sequence(1), initialize()).unwrap();
    assert!(!driver.can_submit());
    let refused = driver.submit(command_sequence(2), initialize()).unwrap_err();
    assert_eq!(refused.reason(), CommandArbiterError::Busy);
    assert_eq!(refused.into_command().sequence(), command_sequence(2));
}

#[test]
fn explicit_cancellation_is_delivered_once_and_polled_at_once() {
    let backend = FakeBackend::complete(IncrementalCompletion::Initialized);
    let mut driver = IncrementalBackendDriver::new(backend, budget());
    let mut output = empty_scan_output();
    assert_eq!(driver.request_cancel(command_sequence(1)).unwrap(), None);
    assert!(!driver.wait_intent().run_immediately());
    driver.submit(command_sequence(1), initialize()).unwrap();
    assert!(driver.wait_intent().run_immediately());
    let _ = driver.drive_once(WaitSet::empty(), &mut output).unwrap();
    assert!(matches!(
        driver.request_cancel(command_sequence(1)).unwrap(),
        Some(IncrementalDriverEvent::CancelRequested { .. })
    ));
    assert_eq!(driver.request_cancel(command_sequence(1)).unwrap(), None);
    assert_eq!(driver.backend().cancel_calls, 1);
    assert!(driver.wait_intent().run_immediately());
    assert_eq!(
        driver.drive_once(WaitSet::empty(), &mut output).unwrap(),
        IncrementalDriverEvent::Cancelled {
            sequence: command_sequence(1),
            suppressed_completion: true,
        }
    );
    assert_eq!(driver.next_deadline_us(), None);
    assert_eq!(driver.into_backend().cancel_calls, 1);
}

#[test]
fn pending_command_is_cancelled_without_the_backend() {
    let backend = FakeBackend::complete(IncrementalCompletion::Initialized);
    let mut driver = IncrementalBackendDriver::new(backend, budget());
    driver.submit(command_sequence(7), initialize()).unwrap();
    assert_eq!(
        driver.request_cancel(command_sequence(7)).unwrap(),
        Some(IncrementalDriverEvent::Cancelled {
            sequence: command_sequence(7),
            suppressed_completion: false,
        })
    );
    assert_eq!(driver.backend().cancel_calls, 0);
    let mut output = empty_scan_output();
    assert_eq!(
        driver.drive_once(WaitSet::empty(), &mut output).unwrap(),
        IncrementalDriverEvent::Idle
    );
}

#[test]
fn waiting_driver_announces_its_sources_and_deadline() {
    let backend = FakeBackend {
        fail_next_start: false,
        cancel_error: None,
        cancel_calls: 0,
        poll_behavior: PollBehavior::Pending(WaitSet::l2_rx()),
    };
    let mut driver = IncrementalBackendDriver::new(backend, budget());
    let mut output = empty_scan_output();
    driver.submit(command_sequence(1), initialize()).unwrap();
    let _ = driver.drive_once(WaitSet::empty(), &mut output).unwrap();
    assert!(matches!(
        driver.drive_once(WaitSet::empty(), &mut output).unwrap(),
        IncrementalDriverEvent::Pending { .. }
    ));
    let intent = driver.wait_intent();
    assert!(!intent.run_immediately());
    assert_eq!(intent.sources(), WaitSet::l2_rx().union(WaitSet::timer()));
    assert_eq!(intent.deadline_us(), Some(42));
    assert!(matches!(
        driver.drive_once(WaitSet::empty(), &mut output).unwrap(),
        IncrementalDriverEvent::Waiting { .. }
    ));
    assert!(matches!(
        driver.drive_once(WaitSet::timer(), &mut output).unwrap(),
        IncrementalDriverEvent::Pending { .. }
    ));
}

struct ConfusedBackend {
    first: Option<OperationId>,
    wait_for_command: bool,
}

impl IncrementalWifiBackend for ConfusedBackend {
    fn start(&mut self, id: OperationId, _request: IncrementalRequest) -> Result<(), BackendError> {
        if self.first.is_none() {
            self.first = Some(id);
        }
        Ok(())
    }

    fn poll(
        &mut self,
        id: OperationId,
        _reason: WakeReason,
        budget: WorkBudget,
        _scan_output: &mut [ScanResult],
    ) -> Result<WorkReport, BackendError> {
        let first = self.first.unwrap();
        let disposition = if self.wait_for_command {
            PollDisposition::Pending(WaitSet::command())
        } else {
            PollDisposition::Complete(IncrementalCompletion::Initialized)
        };
        let named = if self.wait_for_command { id } else { first };
        Ok(WorkReport::try_new(named, budget, 1, 1, true, disposition).unwrap())
    }

    fn cancel(&mut self, _id: OperationId) -> Result<(), BackendError> {
        Ok(())
    }

    fn next_deadline_us(&self, _id: OperationId) -> Option<u64> {
        None
    }
}

#[test]
fn report_of_another_generation_is_refused() {
    let backend = ConfusedBackend {
        first: None,
        wait_for_command: false,
    };
    let mut driver = IncrementalBackendDriver::new(backend, budget());
    let mut output = empty_scan_output();
    driver.submit(command_sequence(1), initialize()).unwrap();
    let IncrementalDriverEvent::Started {
        operation: first, ..
    } = driver.drive_once(WaitSet::empty(), &mut output).unwrap()
    else {
        panic!("first request did not start");
    };
    let _ = driver.drive_once(WaitSet::empty(), &mut output).unwrap();
    driver.submit(command_sequence(2), initialize()).unwrap();
    let IncrementalDriverEvent::Started {
        operation: second, ..
    } = driver.drive_once(WaitSet::empty(), &mut output).unwrap()
    else {
        panic!("second request did not start");
    };
    assert_eq!(
        driver.drive_once(WaitSet::empty(), &mut output),
        Err(IncrementalDriverError::Runner(
            RunnerStateError::StaleReport {
                expected: second,
                actual: first,
            }
        ))
    );
}

#[test]
fn command_turn_of_an_active_operation_is_refused() {
    let backend = ConfusedBackend {
        first: None,
        wait_for_command: true,
    };
    let mut driver = IncrementalBackendDriver::new(backend, budget());
    let mut output = empty_scan_output();
    driver.submit(command_sequence(1), initialize()).unwrap();
    let _ = driver.drive_once(WaitSet::empty(), &mut output).unwrap();
    let _ = driver.drive_once(WaitSet::empty(), &mut output).unwrap();
    assert_eq!(
        driver.drive_once(WaitSet::command(), &mut output),
        Err(IncrementalDriverError::Arbiter(
            CommandArbiterError::InvalidTransition
        ))
    );
}

struct TimedBackend {
    deadline_us: Option<u64>,
}

impl IncrementalWifiBackend for TimedBackend {
    fn start(&mut self, _id: OperationId, _request: IncrementalRequest) -> Result<(), BackendError> {
        self.deadline_us = Some(42);
        Ok(())
    }

    fn poll(
        &mut self,
        id: OperationId,
        _reason: WakeReason,
        budget: WorkBudget,
        _scan_output: &mut [ScanResult],
    ) -> Result<WorkReport, BackendError> {
        let disposition = PollDisposition::Pending(WaitSet::backend());
        Ok(WorkReport::try_new(id, budget, 1, 1, true, disposition).unwrap())
    }

    fn cancel(&mut self, _id: OperationId) -> Result<(), BackendError> {
        self.deadline_us = None;
        Ok(())
    }

    fn next_deadline_us(&self, _id: OperationId) -> Option<u64> {
        self.deadline_us
    }
}

#[test]
fn timer_is_waited_for_only_while_there_is_a_deadline() {
    let mut driver = IncrementalBackendDriver::new(TimedBackend { deadline_us: None }, budget());
    let mut output = empty_scan_output();
    driver.submit(command_sequence(1), initialize()).unwrap();
    let IncrementalDriverEvent::Started { operation, .. } =
        driver.drive_once(WaitSet::empty(), &mut output).unwrap()
    else {
        panic!("request did not start");
    };
    assert!(matches!(
        driver.drive_once(WaitSet::empty(), &mut output).unwrap(),
        IncrementalDriverEvent::Pending { .. }
    ));
    let timed = WaitSet::backend().union(WaitSet::timer());
    assert_eq!(driver.wait_intent().sources(), timed);
    assert_eq!(
        driver.drive_once(WaitSet::empty(), &mut output).unwrap(),
        IncrementalDriverEvent::Waiting {
            sequence: command_sequence(1),
            operation,
            wait_for: timed,
        }
    );

    driver.submit(command_sequence(2), initialize()).unwrap();
    assert!(matches!(
        driver.drive_once(WaitSet::empty(), &mut output).unwrap(),
        IncrementalDriverEvent::CancelRequested { .. }
    ));
    assert_eq!(driver.wait_intent().sources(), WaitSet::backend());
    assert_eq!(driver.wait_intent().deadline_us(), None);
    assert_eq!(
        driver.drive_once(WaitSet::timer(), &mut output).unwrap(),
        IncrementalDriverEvent::Waiting {
            sequence: command_sequence(1),
            operation,
            wait_for: WaitSet::backend(),
        }
    );
}
