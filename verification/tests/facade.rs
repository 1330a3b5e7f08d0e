use core::task::{Context, Waker};

use hisi_rf_core::transport::CompletionKind;
use hisi_rf_core::{
    copy_scan_results, init, BackendError, BackendErrorClass, ConnectionInfo, ControlOperation,
    Error, IncrementalCompletion, IncrementalDriverEvent, IncrementalRadioParts,
    IncrementalRadioRunnerError, IncrementalRequest, IncrementalRunnerDiagnostics,
    IncrementalWaitError, IncrementalWaitPlatform, IncrementalWifiBackend, OperationId,
    Passphrase, PollDisposition, PollState, RadioConfig, RadioResources, RadioState, ReadyWait,
    ScanConfig, ScanOutcome, ScanResult, Security, Ssid, StationConfig, WaitSet, WakeReason,
    WifiEvent, WifiL2Capabilities, WorkBudget, WorkReport,
};

struct FakeBackend {
    completion: Option<IncrementalCompletion>,
    force_mismatch: bool,
    cancel_calls: u8,
    deadline_us: Option<u64>,
    pending_polls: u8,
}

impl FakeBackend {
    fn new() -> Self {
        Self {
            completion: None,
            force_mismatch: false,
            cancel_calls: 0,
            deadline_us: None,
            pending_polls: 0,
        }
    }

    fn mismatched() -> Self {
        Self {
            completion: None,
            force_mismatch: true,
            cancel_calls: 0,
            deadline_us: None,
            pending_polls: 0,
        }
    }

    fn with_deadline(deadline_us: u64) -> Self {
        Self {
            completion: None,
            force_mismatch: false,
            cancel_calls: 0,
            deadline_us: Some(deadline_us),
            pending_polls: 1,
        }
    }

    fn pending_once() -> Self {
        Self {
            completion: None,
            force_mismatch: false,
            cancel_calls: 0,
            deadline_us: None,
            pending_polls: 1,
        }
    }
}

impl IncrementalWifiBackend for FakeBackend {
    fn start(&mut self, _id: OperationId, request: IncrementalRequest) -> Result<(), BackendError> {
        self.completion = Some(if self.force_mismatch {
            IncrementalCompletion::Disconnected
        } else {
            match request {
                IncrementalRequest::Initialize(_) => IncrementalCompletion::Initialized,
                IncrementalRequest::Scan(_) => IncrementalCompletion::Scan(ScanOutcome {
                    count: 1,
                    truncated: false,
                }),
                IncrementalRequest::Connect(config) => {
                    IncrementalCompletion::Connected(ConnectionInfo {
                        bssid: config.bssid,
                        frequency_mhz: 2437,
                    })
                }
                IncrementalRequest::Disconnect(_) => IncrementalCompletion::Disconnected,
            }
        });
        Ok(())
    }

    fn poll(
        &mut self,
        id: OperationId,
        _reason: WakeReason,
        budget: WorkBudget,
        scan_output: &mut [ScanResult],
    ) -> Result<WorkReport, BackendError> {
        let completion = self.completion.expect("start precedes poll");
        if self.pending_polls != 0 {
            self.pending_polls -= 1;
            return Ok(WorkReport::try_new(
                id,
                budget,
                1,
                1,
                true,
                PollDisposition::Pending(WaitSet::backend()),
            )
            .unwrap());
        }
        if matches!(completion, IncrementalCompletion::Scan(_)) {
            scan_output[0] = ScanResult {
                ssid: Ssid::try_from_bytes(b"test-ap").unwrap(),
                bssid: [1, 2, 3, 4, 5, 6],
                frequency_mhz: 2437,
                rssi_dbm: -42,
                security: Security::Wpa2Personal,
                channel: 6,
            };
        }
        Ok(WorkReport::try_new(
            id,
            budget,
            1,
            1,
            true,
            PollDisposition::Complete(completion),
        )
        .unwrap())
    }

    fn cancel(&mut self, _id: OperationId) -> Result<(), BackendError> {
        self.cancel_calls += 1;
        Ok(())
    }

    fn next_deadline_us(&self, _id: OperationId) -> Option<u64> {
        self.deadline_us
    }

    fn l2_capabilities(&self) -> Option<WifiL2Capabilities> {
        WifiL2Capabilities::try_new([0x02, 6, 5, 4, 3, 2])
    }
}

#[derive(Default)]
struct FakeWaitPlatform {
    ready: WaitSet,
    error: Option<u8>,
    calls: u8,
    last_sources: WaitSet,
    last_deadline_us: Option<u64>,
}

impl IncrementalWaitPlatform for FakeWaitPlatform {
    type Error = u8;

    fn poll_ready(
        &mut self,
        _cx: &mut Context<'_>,
        sources: WaitSet,
        deadline_us: Option<u64>,
    ) -> PollState<Result<WaitSet, Self::Error>> {
        self.calls += 1;
        self.last_sources = sources;
        self.last_deadline_us = deadline_us;
        if let Some(error) = self.error {
            return PollState::Ready(Err(error));
        }
        if self.ready.is_empty() {
            PollState::Pending
        } else {
            PollState::Ready(Ok(self.ready))
        }
    }
}

fn context() -> Context<'static> {
    Context::from_waker(Waker::noop())
}

fn poll<const EVENTS: usize>(
    operation: &mut ControlOperation,
    state: &mut RadioState<EVENTS>,
) -> PollState<CompletionKind> {
    operation.poll(state, &mut context())
}

fn is_pending<T>(state: &PollState<T>) -> bool {
    matches!(state, PollState::Pending)
}

fn initialized(state: PollState<CompletionKind>) -> PollState<Result<(), Error>> {
    match state {
        PollState::Ready(kind) => PollState::Ready(kind.into_initialized()),
        PollState::Pending => PollState::Pending,
    }
}

fn disconnected(state: PollState<CompletionKind>) -> PollState<Result<(), Error>> {
    match state {
        PollState::Ready(kind) => PollState::Ready(kind.into_disconnected()),
        PollState::Pending => PollState::Pending,
    }
}

fn budget() -> WorkBudget {
    WorkBudget::try_new(4, 100).unwrap()
}

fn scan_config() -> ScanConfig {
    ScanConfig::try_from_timeout_ms(1_000).unwrap()
}

fn radio<const EVENTS: usize>(
    backend: FakeBackend,
    state: &mut RadioState<EVENTS>,
) -> IncrementalRadioParts<FakeBackend, (), EVENTS> {
    init(
        RadioConfig::default(),
        RadioResources {
            backend,
            device: (),
        },
        state,
    )
    .ok()
    .unwrap()
    .split_incremental(budget())
}

#[test]
fn unified_wait_registers_command_and_platform_without_consuming() {
    let mut state = RadioState::<2>::new();
    let IncrementalRadioParts {
        mut wifi,
        mut runner,
    } = radio(FakeBackend::with_deadline(42), &mut state);
    let mut platform = FakeWaitPlatform::default();
    let mut initialize = wifi.controller.initialize();
    assert_eq!(wifi.device.l2_capabilities(&state), None);

    {
        let mut wait = ReadyWait::new();
        assert!(is_pending(&runner.wait_ready(
            &mut wait,
            &mut state,
            &mut platform,
            &mut context()
        )));
        assert!(is_pending(&poll(&mut initialize, &mut state)));
        assert_eq!(
            runner.wait_ready(&mut wait, &mut state, &mut platform, &mut context()),
            PollState::Ready(Ok(WaitSet::empty()))
        );
    }
    assert_eq!(platform.calls, 0, "idle runner waits only for commands");

    assert!(matches!(
        runner.run_once(&mut state, WaitSet::empty()).unwrap(),
        IncrementalDriverEvent::Started { .. }
    ));
    assert!(matches!(
        runner.run_once(&mut state, WaitSet::empty()).unwrap(),
        IncrementalDriverEvent::Pending { .. }
    ));

    platform.ready = WaitSet::timer();
    {
        let mut wait = ReadyWait::new();
        assert_eq!(
            runner.wait_ready(&mut wait, &mut state, &mut platform, &mut context()),
            PollState::Ready(Ok(WaitSet::timer()))
        );
    }
    assert_eq!(
        platform.last_sources,
        WaitSet::backend().union(WaitSet::timer())
    );
    assert_eq!(platform.last_deadline_us, Some(42));
    assert!(matches!(
        runner.run_once(&mut state, WaitSet::timer()).unwrap(),
        IncrementalDriverEvent::Completed { .. }
    ));
    assert_eq!(
        initialized(poll(&mut initialize, &mut state)),
        PollState::Ready(Ok(()))
    );
    assert_eq!(
        wifi.device.station_mac_address(&state),
        Some([0x02, 6, 5, 4, 3, 2])
    );
    assert_eq!(
        runner.diagnostics(),
        IncrementalRunnerDiagnostics {
            run_once_calls: 3,
            timer_ready_batches: 2,
            wait_ready_calls: 2,
            wait_ready_completions: 2,
            immediate_ready_completions: 1,
            operations_started: 1,
            pending_polls: 1,
            operations_completed: 1,
            ..IncrementalRunnerDiagnostics::empty()
        }
    );
}

#[test]
fn unified_wait_fails_closed_on_platform_error_or_unsubscribed_source() {
    let mut state = RadioState::<2>::new();
    let IncrementalRadioParts {
        mut wifi,
        mut runner,
    } = radio(FakeBackend::pending_once(), &mut state);
    let mut initialize = wifi.controller.initialize();
    assert!(is_pending(&poll(&mut initialize, &mut state)));
    let _ = runner.run_once(&mut state, WaitSet::empty()).unwrap();
    let _ = runner.run_once(&mut state, WaitSet::empty()).unwrap();

    let mut failed = FakeWaitPlatform {
        error: Some(7),
        ..Default::default()
    };
    {
        let mut wait = ReadyWait::new();
        assert_eq!(
            runner.wait_ready(&mut wait, &mut state, &mut failed, &mut context()),
            PollState::Ready(Err(IncrementalWaitError::Platform(7)))
        );
    }

    let mut invalid = FakeWaitPlatform {
        ready: WaitSet::l2_rx(),
        ..Default::default()
    };
    {
        let mut wait = ReadyWait::new();
        assert_eq!(
            runner.wait_ready(&mut wait, &mut state, &mut invalid, &mut context()),
            PollState::Ready(Err(IncrementalWaitError::UnexpectedSources {
                subscribed: WaitSet::backend(),
                ready: WaitSet::l2_rx(),
            }))
        );
    }
    assert_eq!(runner.diagnostics().wait_ready_calls, 2);
    assert_eq!(runner.diagnostics().wait_ready_errors, 2);
    assert_eq!(runner.diagnostics().wait_ready_completions, 0);
}

#[test]
fn incremental_diagnostic_counters_saturate() {
    let mut diagnostics = IncrementalRunnerDiagnostics::empty();
    diagnostics.run_once_calls = u32::MAX;
    diagnostics.command_ready_batches = u32::MAX;
    IncrementalRunnerDiagnostics::increment(&mut diagnostics.run_once_calls);
    diagnostics.record_ready(WaitSet::command());
    assert_eq!(diagnostics.run_once_calls, u32::MAX);
    assert_eq!(diagnostics.command_ready_batches, u32::MAX);
}

#[test]
fn incremental_split_preserves_controller_and_scan_contracts() {
    let mut state = RadioState::<4>::new();
    let IncrementalRadioParts {
        mut wifi,
        mut runner,
    } = radio(FakeBackend::new(), &mut state);

    let idle = runner.wait_intent(&state);
    assert_eq!(
        idle.sources(),
        WaitSet::command().union(WaitSet::cancel())
    );
    assert_eq!(idle.deadline_us(), None);
    assert!(!idle.run_immediately());

    {
        let mut initialize = wifi.controller.initialize();
        assert!(is_pending(&poll(&mut initialize, &mut state)));
        assert!(runner.wait_intent(&state).run_immediately());
        assert!(matches!(
            runner.run_once(&mut state, WaitSet::empty()).unwrap(),
            IncrementalDriverEvent::Started { .. }
        ));
        assert_eq!(
            runner.wait_intent(&state).sources(),
            WaitSet::command().union(WaitSet::cancel())
        );
        assert!(runner.wait_intent(&state).run_immediately());
        assert!(matches!(
            runner.run_once(&mut state, WaitSet::empty()).unwrap(),
            IncrementalDriverEvent::Completed {
                completion: IncrementalCompletion::Initialized,
                ..
            }
        ));
        assert_eq!(
            initialized(poll(&mut initialize, &mut state)),
            PollState::Ready(Ok(()))
        );
    }

    let mut results = [ScanResult::empty(); 1];
    {
        let mut scan = wifi.controller.scan(scan_config());
        assert!(is_pending(&poll(&mut scan, &mut state)));
        let _ = runner.run_once(&mut state, WaitSet::empty()).unwrap();
        let _ = runner.run_once(&mut state, WaitSet::empty()).unwrap();
        let PollState::Ready(kind) = poll(&mut scan, &mut state) else {
            panic!("scan did not complete");
        };
        let backend = kind.into_scanned().unwrap();
        assert_eq!(
            copy_scan_results(&state, backend, &mut results),
            ScanOutcome {
                count: 1,
                truncated: false,
            }
        );
    }
    assert_eq!(results[0].ssid.as_bytes(), b"test-ap");
}

#[test]
fn dropped_future_cancels_before_starting_replacement() {
    let mut state = RadioState::<4>::new();
    let IncrementalRadioParts {
        mut wifi,
        mut runner,
    } = radio(FakeBackend::new(), &mut state);

    {
        let mut abandoned = wifi.controller.initialize();
        assert!(is_pending(&poll(&mut abandoned, &mut state)));
        let _ = runner.run_once(&mut state, WaitSet::empty()).unwrap();
        abandoned.abandon(&mut state);
    }

    let mut disconnect = wifi.controller.disconnect();
    assert!(is_pending(&poll(&mut disconnect, &mut state)));
    assert!(matches!(
        runner.run_once(&mut state, WaitSet::empty()).unwrap(),
        IncrementalDriverEvent::CancelRequested { .. }
    ));
    assert_eq!(runner.backend().cancel_calls, 1);
    assert!(matches!(
        runner.run_once(&mut state, WaitSet::backend()).unwrap(),
        IncrementalDriverEvent::Cancelled {
            suppressed_completion: true,
            ..
        }
    ));
    assert!(matches!(
        runner.run_once(&mut state, WaitSet::empty()).unwrap(),
        IncrementalDriverEvent::Started { .. }
    ));
    let _ = runner.run_once(&mut state, WaitSet::backend()).unwrap();
    assert_eq!(
        disconnected(poll(&mut disconnect, &mut state)),
        PollState::Ready(Ok(()))
    );
}

#[test]
fn dropped_future_requests_cancellation_without_a_replacement() {
    let mut state = RadioState::<4>::new();
    let IncrementalRadioParts {
        mut wifi,
        mut runner,
    } = radio(FakeBackend::new(), &mut state);

    {
        let mut abandoned = wifi.controller.initialize();
        assert!(is_pending(&poll(&mut abandoned, &mut state)));
        assert!(matches!(
            runner.run_once(&mut state, WaitSet::empty()).unwrap(),
            IncrementalDriverEvent::Started { .. }
        ));
        abandoned.abandon(&mut state);
    }

    assert!(runner.wait_intent(&state).run_immediately());
    assert!(matches!(
        runner.run_once(&mut state, WaitSet::empty()).unwrap(),
        IncrementalDriverEvent::CancelRequested { .. }
    ));
    assert_eq!(runner.backend().cancel_calls, 1);
    assert!(matches!(
        runner.run_once(&mut state, WaitSet::backend()).unwrap(),
        IncrementalDriverEvent::Cancelled {
            suppressed_completion: true,
            ..
        }
    ));
}

#[test]
fn dropped_future_wakes_the_unified_wait_for_cancellation() {
    let mut state = RadioState::<4>::new();
    let IncrementalRadioParts {
        mut wifi,
        mut runner,
    } = radio(FakeBackend::pending_once(), &mut state);
    let mut initialize = wifi.controller.initialize();
    assert!(is_pending(&poll(&mut initialize, &mut state)));
    assert!(matches!(
        runner.run_once(&mut state, WaitSet::empty()).unwrap(),
        IncrementalDriverEvent::Started { .. }
    ));
    assert!(matches!(
        runner.run_once(&mut state, WaitSet::empty()).unwrap(),
        IncrementalDriverEvent::Pending { .. }
    ));

    let mut platform = FakeWaitPlatform::default();
    let mut wait = ReadyWait::new();
    assert!(is_pending(&runner.wait_ready(
        &mut wait,
        &mut state,
        &mut platform,
        &mut context()
    )));
    initialize.abandon(&mut state);
    assert_eq!(
        runner.wait_ready(&mut wait, &mut state, &mut platform, &mut context()),
        PollState::Ready(Ok(WaitSet::cancel()))
    );
}

#[test]
fn queued_replacement_waits_for_pending_capacity() {
    let mut state = RadioState::<4>::new();
    let IncrementalRadioParts {
        mut wifi,
        mut runner,
    } = radio(FakeBackend::new(), &mut state);

    {
        let mut first = wifi.controller.initialize();
        assert!(is_pending(&poll(&mut first, &mut state)));
        let _ = runner.run_once(&mut state, WaitSet::empty()).unwrap();
        first.abandon(&mut state);
    }
    {
        let mut second = wifi.controller.scan(scan_config());
        assert!(is_pending(&poll(&mut second, &mut state)));
        assert!(matches!(
            runner.run_once(&mut state, WaitSet::empty()).unwrap(),
            IncrementalDriverEvent::CancelRequested { .. }
        ));
        second.abandon(&mut state);
    }

    let mut third = wifi.controller.disconnect();
    assert!(is_pending(&poll(&mut third, &mut state)));

    let backpressured = runner.wait_intent(&state);
    assert_eq!(backpressured.sources(), WaitSet::cancel());
    assert!(!backpressured.sources().contains(WaitSet::command()));
    assert!(backpressured.run_immediately());

    // The third command remains in the facade channel until the pending
    // second command has started; it is not rejected as over-capacity.
    assert!(matches!(
        runner.run_once(&mut state, WaitSet::empty()).unwrap(),
        IncrementalDriverEvent::Cancelled { .. }
    ));
    assert!(runner.wait_intent(&state).run_immediately());
    assert!(runner
        .wait_intent(&state)
        .sources()
        .contains(WaitSet::command()));
    assert!(matches!(
        runner.run_once(&mut state, WaitSet::empty()).unwrap(),
        IncrementalDriverEvent::Cancelled { .. }
    ));
    assert!(matches!(
        runner.run_once(&mut state, WaitSet::empty()).unwrap(),
        IncrementalDriverEvent::Started { .. }
    ));
    assert!(runner
        .wait_intent(&state)
        .sources()
        .contains(WaitSet::command()));
    assert!(runner.wait_intent(&state).run_immediately());
    assert!(matches!(
        runner.run_once(&mut state, WaitSet::empty()).unwrap(),
        IncrementalDriverEvent::Completed {
            completion: IncrementalCompletion::Disconnected,
            ..
        }
    ));
    assert_eq!(
        disconnected(poll(&mut third, &mut state)),
        PollState::Ready(Ok(()))
    );
}

#[test]
fn mismatched_completion_unblocks_controller_with_protocol_error() {
    let mut state = RadioState::<2>::new();
    let IncrementalRadioParts {
        mut wifi,
        mut runner,
    } = radio(FakeBackend::mismatched(), &mut state);
    let mut initialize = wifi.controller.initialize();
    assert!(is_pending(&poll(&mut initialize, &mut state)));
    let _ = runner.run_once(&mut state, WaitSet::empty()).unwrap();
    assert_eq!(
        runner.run_once(&mut state, WaitSet::backend()),
        Err(IncrementalRadioRunnerError::CompletionMismatch)
    );
    assert_eq!(
        initialized(poll(&mut initialize, &mut state)),
        PollState::Ready(Err(Error::Protocol))
    );
    assert_eq!(runner.diagnostics().protocol_errors, 1);
}

#[test]
fn cancelled_command_is_answered_with_the_cancelled_class() {
    let mut state = RadioState::<4>::new();
    let IncrementalRadioParts {
        mut wifi,
        mut runner,
    } = radio(FakeBackend::new(), &mut state);
    let mut first = wifi.controller.initialize();
    assert!(is_pending(&poll(&mut first, &mut state)));
    let _ = runner.run_once(&mut state, WaitSet::empty()).unwrap();
    let mut second = wifi.controller.disconnect();
    assert!(is_pending(&poll(&mut second, &mut state)));
    let _ = runner.run_once(&mut state, WaitSet::empty()).unwrap();
    let _ = runner.run_once(&mut state, WaitSet::backend()).unwrap();
    let cancelled = BackendError::new(BackendErrorClass::Cancelled, 0);
    assert_eq!(
        initialized(poll(&mut first, &mut state)),
        PollState::Ready(Err(Error::Backend(cancelled)))
    );
    assert_eq!(
        wifi.controller.next_event(&mut state, &mut context()),
        PollState::Ready(WifiEvent::Failed(cancelled))
    );
    assert_eq!(runner.diagnostics().operations_cancelled, 1);
    assert_eq!(runner.diagnostics().cancellations_requested, 1);
}

#[test]
fn connect_request_reaches_the_backend() {
    let mut state = RadioState::<4>::new();
    let IncrementalRadioParts {
        mut wifi,
        mut runner,
    } = radio(FakeBackend::new(), &mut state);
    let result = ScanResult {
        ssid: Ssid::try_from_bytes(b"net").unwrap(),
        bssid: [9; 6],
        frequency_mhz: 2437,
        rssi_dbm: -1,
        security: Security::Wpa2Personal,
        channel: 6,
    };
    let config = StationConfig::wpa2_personal(
        &result,
        Passphrase::try_from_ascii(b"testtest").unwrap(),
        100,
    )
    .unwrap();
    let mut connect = wifi.controller.connect(config);
    assert!(is_pending(&runner.wait_for_command(&mut state, &mut context())));
    assert!(is_pending(&poll(&mut connect, &mut state)));
    assert_eq!(
        runner.wait_for_command(&mut state, &mut context()),
        PollState::Ready(())
    );
    let _ = runner.run_once(&mut state, WaitSet::command()).unwrap();
    let _ = runner.run_once(&mut state, WaitSet::backend()).unwrap();
    let info = ConnectionInfo {
        bssid: [9; 6],
        frequency_mhz: 2437,
    };
    let PollState::Ready(kind) = poll(&mut connect, &mut state) else {
        panic!("connect did not complete");
    };
    assert_eq!(kind.into_connected(), Ok(info));
    assert_eq!(
        wifi.controller.next_event(&mut state, &mut context()),
        PollState::Ready(WifiEvent::Connected(info))
    );
    assert_eq!(runner.next_deadline_us(), None);
}

#[test]
fn abandoned_sequences_are_kept_up_to_the_channel_capacity() {
    let mut state = RadioState::<8>::new();
    let IncrementalRadioParts {
        mut wifi,
        mut runner,
    } = radio(FakeBackend::new(), &mut state);
    // An operation that was never sent is let go without a request.
    wifi.controller.initialize().abandon(&mut state);
    assert!(!runner.wait_intent(&state).run_immediately());

    let mut first = wifi.controller.initialize();
    assert!(is_pending(&poll(&mut first, &mut state)));
    let _ = runner.run_once(&mut state, WaitSet::empty()).unwrap();
    let mut second = wifi.controller.initialize();
    assert!(is_pending(&poll(&mut second, &mut state)));
    let _ = runner.run_once(&mut state, WaitSet::empty()).unwrap();
    let mut third = wifi.controller.initialize();
    assert!(is_pending(&poll(&mut third, &mut state)));
    first.abandon(&mut state);
    second.abandon(&mut state);
    third.abandon(&mut state);
    third.abandon(&mut state);

    // One request is served per step, in the order in which they were made.
    // The first one names an operation that is being cancelled already.
    let first_step = runner.run_once(&mut state, WaitSet::backend()).unwrap();
    assert!(matches!(
        first_step,
        IncrementalDriverEvent::Cancelled { sequence, .. } if sequence.get() == first.sequence()
    ));
    let second_step = runner.run_once(&mut state, WaitSet::empty()).unwrap();
    assert!(matches!(
        second_step,
        IncrementalDriverEvent::Cancelled { sequence, .. } if sequence.get() == second.sequence()
    ));
    let third_step = runner.run_once(&mut state, WaitSet::empty()).unwrap();
    assert!(matches!(
        third_step,
        IncrementalDriverEvent::Cancelled { sequence, .. } if sequence.get() == third.sequence()
    ));
    assert!(!runner.wait_intent(&state).run_immediately());
    assert_eq!(
        runner.run_once(&mut state, WaitSet::empty()).unwrap(),
        IncrementalDriverEvent::Idle
    );
}

#[test]
fn counters_survive_the_shared_array() {
    let mut state = RadioState::<1>::new();
    assert_eq!(
        state.incremental_diagnostics(),
        IncrementalRunnerDiagnostics::empty()
    );
    let mut values = [0u32; 18];
    for (index, value) in values.iter_mut().enumerate() {
        *value = index as u32 + 1;
    }
    let counters = IncrementalRunnerDiagnostics::from_array(values);
    assert_eq!(counters.run_once_calls, 1);
    assert_eq!(counters.protocol_errors, 18);
    assert_eq!(counters.as_array(), values);
    state.publish_incremental_diagnostics(counters);
    assert_eq!(state.incremental_diagnostics(), counters);
}

#[test]
fn link_layer_properties_are_published_once() {
    let mut state = RadioState::<4>::new();
    let IncrementalRadioParts {
        mut wifi,
        mut runner,
    } = radio(FakeBackend::new(), &mut state);
    for _ in 0..2 {
        let mut initialize = wifi.controller.initialize();
        assert!(is_pending(&poll(&mut initialize, &mut state)));
        let _ = runner.run_once(&mut state, WaitSet::empty()).unwrap();
        let _ = runner.run_once(&mut state, WaitSet::empty()).unwrap();
        assert_eq!(
            initialized(poll(&mut initialize, &mut state)),
            PollState::Ready(Ok(()))
        );
        assert_eq!(
            wifi.device.station_mac_address(&state),
            Some([0x02, 6, 5, 4, 3, 2])
        );
    }
}
