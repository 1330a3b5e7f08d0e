use core::task::{Context, Waker};

use hisi_rf_core::{
    copy_scan_results, init, BackendError, BackendErrorClass, ConnectionInfo, ControlOperation,
    Error, EventDiagnostics, ManagementFrameProtection, Passphrase, PersonalSecurity, PollState,
    RadioConfig, RadioParts, RadioResources, RadioState, SaePwe, ScanConfig, ScanOutcome,
    ScanResult, Security, Ssid, StationConfig, WifiBackend, WifiConfig, WifiEvent,
    WifiL2Capabilities,
};
use hisi_rf_core::transport::{Completion, CompletionKind};

#[derive(Default)]
struct MockBackend {
    calls: u8,
    poll_work: bool,
    poll_error: Option<BackendError>,
    failure: Option<BackendError>,
    found: usize,
}

impl WifiBackend for MockBackend {
    fn initialize(&mut self, _: &WifiConfig) -> Result<(), BackendError> {
        self.calls += 1;
        match self.failure {
            Some(error) => Err(error),
            None => Ok(()),
        }
    }

    fn scan(
        &mut self,
        _: ScanConfig,
        output: &mut [ScanResult],
    ) -> Result<ScanOutcome, BackendError> {
        self.calls += 1;
        if let Some(error) = self.failure {
            return Err(error);
        }
        for channel in 0..self.found.max(1) {
            output[channel] = ScanResult {
                ssid: Ssid::try_from_bytes(b"test-ap").unwrap(),
                bssid: [1, 2, 3, 4, 5, 6],
                frequency_mhz: 2437,
                rssi_dbm: -42,
                security: Security::Wpa2Personal,
                channel: 6 + channel as u8,
            };
        }
        Ok(ScanOutcome {
            count: self.found.max(1),
            truncated: false,
        })
    }

    fn connect(&mut self, config: &StationConfig) -> Result<ConnectionInfo, BackendError> {
        self.calls += 1;
        if let Some(error) = self.failure {
            return Err(error);
        }
        assert_eq!(config.passphrase.expose_secret(), b"testtest");
        Ok(ConnectionInfo {
            bssid: config.bssid,
            frequency_mhz: 2437,
        })
    }

    fn disconnect(&mut self, _: &WifiConfig) -> Result<(), BackendError> {
        self.calls += 1;
        match self.failure {
            Some(error) => Err(error),
            None => Ok(()),
        }
    }

    fn poll(&mut self) -> Result<bool, BackendError> {
        if let Some(error) = self.poll_error {
            Err(error)
        } else {
            Ok(core::mem::take(&mut self.poll_work))
        }
    }
}

fn context() -> Context<'static> {
    Context::from_waker(Waker::noop())
}

fn poll<const EVENTS: usize>(
    operation: &mut ControlOperation,
    state: &mut RadioState<EVENTS>,
) -> PollState<CompletionKind> {
    operation.poll(state, &mut context())
}

fn is_pending<T>(state: &PollState<T>) -> bool {
    matches!(state, PollState::Pending)
}

fn initialized(state: PollState<CompletionKind>) -> PollState<Result<(), Error>> {
    match state {
        PollState::Ready(kind) => PollState::Ready(kind.into_initialized()),
        PollState::Pending => PollState::Pending,
    }
}

fn radio<const EVENTS: usize>(
    backend: MockBackend,
    state: &mut RadioState<EVENTS>,
) -> RadioParts<MockBackend, (), EVENTS> {
    init(
        RadioConfig::default(),
        RadioResources {
            backend,
            device: (),
        },
        state,
    )
    .ok()
    .unwrap()
    .split()
}

#[test]
fn runner_is_the_only_backend_execution_path() {
    let mut state = RadioState::<4>::new();
    let RadioParts {
        mut wifi,
        mut runner,
    } = radio(MockBackend::default(), &mut state);

    {
        let mut initialize = wifi.controller.initialize();
        assert!(is_pending(&poll(&mut initialize, &mut state)));
        assert!(runner.run_once(&mut state));
        assert_eq!(
            initialized(poll(&mut initialize, &mut state)),
            PollState::Ready(Ok(()))
        );
    }

    let mut results = [ScanResult::empty(); 1];
    {
        let mut scan = wifi
            .controller
            .scan(ScanConfig::try_from_timeout_ms(1_000).unwrap());
        assert!(is_pending(&poll(&mut scan, &mut state)));
        assert!(runner.run_once(&mut state));
        let PollState::Ready(kind) = poll(&mut scan, &mut state) else {
            panic!("scan did not complete");
        };
        let backend = kind.into_scanned().unwrap();
        assert_eq!(
            copy_scan_results(&state, backend, &mut results),
            ScanOutcome {
                count: 1,
                truncated: false,
            }
        );
    }
    assert_eq!(results[0].ssid.as_bytes(), b"test-ap");
}

#[test]
fn bounded_events_drop_the_oldest_and_report_overflow() {
    let mut state = RadioState::<1>::new();
    let RadioParts {
        mut wifi,
        mut runner,
    } = radio(MockBackend::default(), &mut state);

    for _ in 0..2 {
        let mut initialize = wifi.controller.initialize();
        assert!(is_pending(&poll(&mut initialize, &mut state)));
        assert!(runner.run_once(&mut state));
        assert_eq!(
            initialized(poll(&mut initialize, &mut state)),
            PollState::Ready(Ok(()))
        );
    }
    assert_eq!(
        wifi.controller.event_diagnostics(&state),
        EventDiagnostics {
            capacity: 1,
            pending: 1,
            dropped: 1,
        }
    );
    assert_eq!(state.event_high_water(), 1);
    assert_eq!(state.command_high_water(), 1);
}

#[test]
fn runner_advances_background_work_without_a_command() {
    let mut state = RadioState::<2>::new();
    let mut runner = radio(
        MockBackend {
            poll_work: true,
            ..MockBackend::default()
        },
        &mut state,
    )
    .runner;

    assert!(runner.run_once(&mut state));
    assert!(!runner.run_once(&mut state));
}

#[test]
fn repeated_background_error_publishes_one_event() {
    let mut state = RadioState::<2>::new();
    let error = BackendError {
        class: BackendErrorClass::Other,
        code: 0x55,
    };
    let RadioParts {
        mut wifi,
        mut runner,
    } = radio(
        MockBackend {
            poll_error: Some(error),
            ..MockBackend::default()
        },
        &mut state,
    );

    assert!(runner.run_once(&mut state));
    assert!(!runner.run_once(&mut state));
    assert_eq!(
        wifi.controller.event_diagnostics(&state),
        EventDiagnostics {
            capacity: 2,
            pending: 1,
            dropped: 0,
        }
    );
    assert_eq!(
        wifi.controller.next_event(&mut state, &mut context()),
        PollState::Ready(WifiEvent::Failed(error))
    );
}

#[test]
fn cancelled_control_future_cannot_poison_the_next_command() {
    let mut state = RadioState::<2>::new();
    let RadioParts {
        mut wifi,
        mut runner,
    } = radio(MockBackend::default(), &mut state);

    {
        let mut cancelled = wifi.controller.initialize();
        assert!(is_pending(&poll(&mut cancelled, &mut state)));
        cancelled.abandon(&mut state);
    }
    assert!(runner.run_once(&mut state));

    let mut next = wifi.controller.initialize();
    assert!(is_pending(&poll(&mut next, &mut state)));
    assert!(runner.run_once(&mut state));
    assert_eq!(
        initialized(poll(&mut next, &mut state)),
        PollState::Ready(Ok(()))
    );
}

#[test]
fn validated_configuration_rejects_invalid_inputs() {
    assert!(Ssid::try_from_bytes(b"").is_none());
    assert!(Ssid::try_from_bytes(&[b'x'; 33]).is_none());
    assert!(Passphrase::try_from_ascii(b"short").is_none());
    assert!(Passphrase::try_from_ascii(b"testtest").is_some());
    assert!(ScanConfig::try_from_timeout_ms(0).is_none());
}

#[test]
fn wpa3_config_requires_wpa3_scan_and_implies_required_pmf() {
    let result = ScanResult {
        ssid: Ssid::try_from_bytes(b"wpa3-ap").unwrap(),
        bssid: [1, 2, 3, 4, 5, 6],
        frequency_mhz: 5180,
        rssi_dbm: -38,
        security: Security::Wpa3Personal,
        channel: 36,
    };
    let config = StationConfig::wpa3_personal(
        &result,
        Passphrase::try_from_ascii(b"testtest").unwrap(),
        SaePwe::Both,
        10_000,
    )
    .unwrap();
    assert_eq!(
        config.security(),
        PersonalSecurity::Wpa3 {
            sae_pwe: SaePwe::Both
        }
    );
    assert_eq!(
        config.security().management_frame_protection(),
        ManagementFrameProtection::Required
    );
    assert!(StationConfig::wpa2_personal(
        &result,
        Passphrase::try_from_ascii(b"testtest").unwrap(),
        10_000
    )
    .is_none());
}

fn wpa2_result() -> ScanResult {
    ScanResult {
        ssid: Ssid::try_from_bytes(b"home").unwrap(),
        bssid: [6, 5, 4, 3, 2, 1],
        frequency_mhz: 2412,
        rssi_dbm: -50,
        security: Security::Wpa2Personal,
        channel: 1,
    }
}

fn wpa2_config() -> StationConfig {
    StationConfig::wpa2_personal(
        &wpa2_result(),
        Passphrase::try_from_ascii(b"testtest").unwrap(),
        500,
    )
    .unwrap()
}

#[test]
fn wpa2_config_carries_the_selected_network() {
    let config = wpa2_config();
    assert_eq!(config.ssid.as_bytes(), b"home");
    assert_eq!(config.bssid, [6, 5, 4, 3, 2, 1]);
    assert_eq!(config.channel, 1);
    assert_eq!(config.timeout_ms(), 500);
    assert_eq!(config.security(), PersonalSecurity::Wpa2);
    assert_eq!(
        config.security().management_frame_protection(),
        ManagementFrameProtection::Disabled
    );
    assert!(StationConfig::wpa2_personal(
        &wpa2_result(),
        Passphrase::try_from_ascii(b"testtest").unwrap(),
        0
    )
    .is_none());
    assert!(StationConfig::wpa3_personal(
        &wpa2_result(),
        Passphrase::try_from_ascii(b"testtest").unwrap(),
        SaePwe::HuntAndPeck,
        500
    )
    .is_none());
}

#[test]
fn passphrases_are_printable() {
    assert!(Passphrase::try_from_ascii(&[b'x'; 63]).is_some());
    assert!(Passphrase::try_from_ascii(&[b'x'; 64]).is_none());
    assert!(Passphrase::try_from_ascii(b"with\ttab").is_none());
    assert!(Passphrase::try_from_ascii(b"seven\x7fdel").is_none());
    assert!(Passphrase::try_from_ascii(b"high\xc3\xa9bit").is_none());
    assert!(Passphrase::try_from_ascii(b" ~ tilde").is_some());
    let secret = Passphrase::try_from_ascii(b"testtest").unwrap();
    assert_eq!(secret.expose_secret(), b"testtest");
}

#[test]
fn state_is_claimed_by_one_radio() {
    let mut state = RadioState::<1>::new();
    let _ = radio(MockBackend::default(), &mut state);
    let second = init(
        RadioConfig::default(),
        RadioResources {
            backend: MockBackend::default(),
            device: (),
        },
        &mut state,
    );
    assert_eq!(second.err(), Some(Error::AlreadyInitialized));
    assert_eq!(
        RadioConfig::default().wifi,
        WifiConfig {
            initialize_timeout_ms: 30_000,
            disconnect_timeout_ms: 10_000,
        }
    );
}

#[test]
fn connect_and_disconnect_return_what_the_backend_returned() {
    let mut state = RadioState::<4>::new();
    let RadioParts {
        mut wifi,
        mut runner,
    } = radio(MockBackend::default(), &mut state);
    let info = ConnectionInfo {
        bssid: [6, 5, 4, 3, 2, 1],
        frequency_mhz: 2437,
    };

    let mut connect = wifi.controller.connect(wpa2_config());
    assert_eq!(connect.sequence(), 1);
    assert!(is_pending(&poll(&mut connect, &mut state)));
    assert!(runner.run_once(&mut state));
    let PollState::Ready(kind) = poll(&mut connect, &mut state) else {
        panic!("connect did not complete");
    };
    assert!(connect.is_over());
    assert_eq!(kind.into_connected(), Ok(info));
    assert_eq!(kind.into_scanned(), Err(Error::Protocol));

    let mut disconnect = wifi.controller.disconnect();
    assert_eq!(disconnect.sequence(), 2);
    assert!(is_pending(&poll(&mut disconnect, &mut state)));
    assert_eq!(
        runner.run(&mut state, &mut context()),
        PollState::Ready(())
    );
    assert_eq!(runner.run(&mut state, &mut context()), PollState::Pending);
    let PollState::Ready(kind) = poll(&mut disconnect, &mut state) else {
        panic!("disconnect did not complete");
    };
    assert_eq!(kind.into_disconnected(), Ok(()));
    assert_eq!(kind.into_initialized(), Err(Error::Protocol));

    assert_eq!(
        wifi.controller.next_event(&mut state, &mut context()),
        PollState::Ready(WifiEvent::Connected(info))
    );
    assert_eq!(
        wifi.controller.next_event(&mut state, &mut context()),
        PollState::Ready(WifiEvent::Disconnected { reason: 0 })
    );
    assert_eq!(
        wifi.controller.next_event(&mut state, &mut context()),
        PollState::Pending
    );
}

#[test]
fn backend_failures_reach_the_controller_and_the_events() {
    let error = BackendError::new(BackendErrorClass::Busy, 3);
    let mut state = RadioState::<8>::new();
    let RadioParts {
        mut wifi,
        mut runner,
    } = radio(
        MockBackend {
            failure: Some(error),
            ..MockBackend::default()
        },
        &mut state,
    );
    let mut operations = [
        wifi.controller.initialize(),
        wifi.controller
            .scan(ScanConfig::try_from_timeout_ms(1).unwrap()),
        wifi.controller.connect(wpa2_config()),
        wifi.controller.disconnect(),
    ];
    let mut kinds = Vec::new();
    for operation in operations.iter_mut() {
        assert!(is_pending(&poll(operation, &mut state)));
        assert!(runner.run_once(&mut state));
        let PollState::Ready(kind) = poll(operation, &mut state) else {
            panic!("operation did not complete");
        };
        kinds.push(kind);
        assert_eq!(
            wifi.controller.next_event(&mut state, &mut context()),
            PollState::Ready(WifiEvent::Failed(error))
        );
    }
    assert_eq!(kinds[0].into_initialized(), Err(Error::Backend(error)));
    assert_eq!(kinds[1].into_scanned(), Err(Error::Backend(error)));
    assert_eq!(kinds[2].into_connected(), Err(Error::Backend(error)));
    assert_eq!(kinds[3].into_disconnected(), Err(Error::Backend(error)));
}

#[test]
fn full_command_channel_keeps_the_command_with_its_operation() {
    let mut state = RadioState::<2>::new();
    let RadioParts {
        mut wifi,
        mut runner,
    } = radio(MockBackend::default(), &mut state);
    let mut first = wifi.controller.initialize();
    let mut second = wifi.controller.disconnect();
    assert!(is_pending(&poll(&mut first, &mut state)));
    assert!(is_pending(&poll(&mut second, &mut state)));
    assert!(runner.run_once(&mut state));
    // The completion of the first command is stale for the second one.
    assert!(is_pending(&poll(&mut second, &mut state)));
    assert!(is_pending(&poll(&mut first, &mut state)));
    assert!(runner.run_once(&mut state));
    let PollState::Ready(kind) = poll(&mut second, &mut state) else {
        panic!("second operation did not complete");
    };
    assert_eq!(kind.into_disconnected(), Ok(()));
}

#[test]
fn scan_results_are_copied_up_to_the_callers_room() {
    let mut state = RadioState::<2>::new();
    let RadioParts {
        mut wifi,
        mut runner,
    } = radio(
        MockBackend {
            found: 3,
            ..MockBackend::default()
        },
        &mut state,
    );
    let mut scan = wifi
        .controller
        .scan(ScanConfig::try_from_timeout_ms(1_000).unwrap());
    assert!(is_pending(&poll(&mut scan, &mut state)));
    assert!(runner.run_once(&mut state));
    let PollState::Ready(kind) = poll(&mut scan, &mut state) else {
        panic!("scan did not complete");
    };
    let backend = kind.into_scanned().unwrap();
    let mut small = [ScanResult::empty(); 2];
    assert_eq!(
        copy_scan_results(&state, backend, &mut small),
        ScanOutcome {
            count: 2,
            truncated: true,
        }
    );
    assert_eq!(small[1].channel, 7);
    let mut large = [ScanResult::empty(); 5];
    assert_eq!(
        copy_scan_results(&state, backend, &mut large),
        ScanOutcome {
            count: 3,
            truncated: false,
        }
    );
    assert_eq!(large[2].channel, 8);
    assert_eq!(large[3], ScanResult::empty());
    assert_eq!(
        wifi.controller.next_event(&mut state, &mut context()),
        PollState::Ready(WifiEvent::ScanCompleted {
            count: 3,
            truncated: false,
        })
    );
}

#[test]
fn concluding_a_batch_reports_more_work() {
    let mut state = RadioState::<2>::new();
    let mut runner = radio(MockBackend::default(), &mut state).runner;
    let error = BackendError::new(BackendErrorClass::Other, 1);
    let other = BackendError::new(BackendErrorClass::Other, 2);
    assert!(!runner.conclude(&mut state, false, Ok(false)));
    assert!(runner.conclude(&mut state, true, Ok(false)));
    assert!(runner.conclude(&mut state, false, Err(error)));
    assert!(!runner.conclude(&mut state, false, Err(error)));
    assert!(runner.conclude(&mut state, true, Err(error)));
    assert!(runner.conclude(&mut state, false, Err(other)));
    assert!(!runner.conclude(&mut state, false, Ok(false)));
    assert!(runner.conclude(&mut state, false, Err(other)));
}

#[test]
fn device_gives_access_to_its_driver() {
    let mut state = RadioState::<1>::new();
    let parts = init(
        RadioConfig::default(),
        RadioResources {
            backend: MockBackend::default(),
            device: 5u32,
        },
        &mut state,
    )
    .ok()
    .unwrap()
    .split();
    let mut device = parts.wifi.device;
    assert_eq!(*device.inner(), 5);
    *device.inner_mut() = 6;
    assert_eq!(device.l2_capabilities(&state), None);
    assert_eq!(device.station_mac_address(&state), None);
    assert_eq!(device.into_inner(), 6);
}

#[test]
fn link_layer_addresses_are_not_zero() {
    assert!(WifiL2Capabilities::try_new([0; 6]).is_none());
    assert_eq!(
        WifiL2Capabilities::try_new([0, 0, 0, 0, 0, 9])
            .unwrap()
            .station_mac_address(),
        [0, 0, 0, 0, 0, 9]
    );
}

#[test]
fn equal_ssid_bytes_are_equal_ssids() {
    assert_eq!(Ssid::try_from_bytes(b"a"), Ssid::try_from_bytes(b"a"));
    assert_ne!(Ssid::try_from_bytes(b"a"), Ssid::try_from_bytes(b"a\0"));
    assert_eq!(Ssid::try_from_bytes(&[7; 32]).unwrap().as_bytes(), &[7; 32]);
    assert_eq!(ScanResult::empty().ssid.as_bytes(), b"");
    assert_eq!(ScanConfig::try_from_timeout_ms(9).unwrap().timeout_ms(), 9);
}

#[test]
fn turn_can_be_taken_in_parts_without_the_shared_state() {
    let mut state = RadioState::<4>::new();
    let backend = MockBackend {
        found: 2,
        poll_work: true,
        ..MockBackend::default()
    };
    let mut parts = radio(backend, &mut state);
    let mut scan = parts
        .wifi
        .controller
        .scan(ScanConfig::try_from_timeout_ms(10).unwrap());
    assert!(is_pending(&poll(&mut scan, &mut state)));

    let command = state.take_command().unwrap();
    assert!(state.take_command().is_none());
    let mut found = [ScanResult::empty(); 32];
    let completion = parts.runner.execute(command, &mut found);
    assert_eq!(completion.sequence, scan.sequence());
    assert_eq!(found[1].channel, 7);
    state.retain_scan_results(found);
    parts.runner.answer(&mut state, completion);
    let background = parts.runner.work();
    assert_eq!(background, Ok(true));
    assert!(parts.runner.conclude(&mut state, false, background));
    assert_eq!(parts.runner.work(), Ok(false));

    let PollState::Ready(kind) = poll(&mut scan, &mut state) else {
        panic!("scan is not answered");
    };
    let outcome = kind.into_scanned().unwrap();
    assert_eq!(outcome.count, 2);
    let mut output = [ScanResult::empty(); 1];
    assert_eq!(
        copy_scan_results(&state, outcome, &mut output),
        ScanOutcome {
            count: 1,
            truncated: true,
        }
    );
    assert_eq!(output[0].channel, 6);
    assert!(matches!(
        parts.wifi.controller.next_event(&mut state, &mut context()),
        PollState::Ready(WifiEvent::ScanCompleted {
            count: 2,
            truncated: false,
        })
    ));
    assert!(is_pending(&state.poll_command(&mut context())));
}

#[test]
fn protocol_failure_is_signalled_without_an_event() {
    let mut state = RadioState::<2>::new();
    let mut parts = radio(MockBackend::default(), &mut state);
    let mut operation = parts.wifi.controller.disconnect();
    assert!(is_pending(&poll(&mut operation, &mut state)));
    let sequence = operation.sequence();
    parts.runner.answer(
        &mut state,
        Completion {
            sequence,
            kind: CompletionKind::Protocol,
        },
    );
    let PollState::Ready(kind) = poll(&mut operation, &mut state) else {
        panic!("operation is not answered");
    };
    assert_eq!(kind.into_disconnected(), Err(Error::Protocol));
    assert!(is_pending(
        &parts.wifi.controller.next_event(&mut state, &mut context())
    ));
}
