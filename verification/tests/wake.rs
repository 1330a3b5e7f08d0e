use std::sync::atomic::{AtomicUsize, Ordering};
use std::sync::Arc;
use std::task::{Context, Wake, Waker};

use hisi_rf_core::control::{ControlState, EventState, LifecycleState};
use hisi_rf_core::{
    init, BackendError, ConnectionInfo, IncrementalCompletion, IncrementalDriverEvent,
    IncrementalRadioParts, IncrementalRequest, IncrementalWaitPlatform, IncrementalWifiBackend,
    OperationId, Passphrase, PollDisposition, PollState, RadioConfig, RadioResources, RadioState,
    ReadyWait, ScanConfig, ScanOutcome, ScanResult, Security, Ssid, StationConfig, WaitSet,
    WakeReason, WifiBackend, WifiConfig, WifiEvent, WorkBudget, WorkReport,
};

struct Counter {
    wakes: AtomicUsize,
}

impl Wake for Counter {
    fn wake(self: Arc<Self>) {
        self.wakes.fetch_add(1, Ordering::SeqCst);
    }
}

fn counting() -> (Arc<Counter>, Waker) {
    let counter = Arc::new(Counter {
        wakes: AtomicUsize::new(0),
    });
    let waker = Waker::from(counter.clone());
    (counter, waker)
}

fn wakes(counter: &Counter) -> usize {
    counter.wakes.load(Ordering::SeqCst)
}

struct Blocking;

impl WifiBackend for Blocking {
    fn initialize(&mut self, _: &WifiConfig) -> Result<(), BackendError> {
        Ok(())
    }

    fn scan(
        &mut self,
        _: ScanConfig,
        _: &mut [ScanResult],
    ) -> Result<ScanOutcome, BackendError> {
        Ok(ScanOutcome {
            count: 0,
            truncated: false,
        })
    }

    fn connect(&mut self, config: &StationConfig) -> Result<ConnectionInfo, BackendError> {
        Ok(ConnectionInfo {
            bssid: config.bssid,
            frequency_mhz: 2412,
        })
    }

    fn disconnect(&mut self, _: &WifiConfig) -> Result<(), BackendError> {
        Ok(())
    }
}

struct Incremental;

impl IncrementalWifiBackend for Incremental {
    fn start(&mut self, _: OperationId, _: IncrementalRequest) -> Result<(), BackendError> {
        Ok(())
    }

    fn poll(
        &mut self,
        id: OperationId,
        reason: WakeReason,
        budget: WorkBudget,
        _: &mut [ScanResult],
    ) -> Result<WorkReport, BackendError> {
        let disposition = if reason == WakeReason::L2Rx {
            PollDisposition::Complete(IncrementalCompletion::Initialized)
        } else {
            PollDisposition::Pending(WaitSet::l2_rx())
        };
        Ok(WorkReport::try_new(id, budget, 1, 1, true, disposition).unwrap())
    }

    fn cancel(&mut self, _: OperationId) -> Result<(), BackendError> {
        Ok(())
    }

    fn next_deadline_us(&self, _: OperationId) -> Option<u64> {
        None
    }
}

struct Silent;

impl IncrementalWaitPlatform for Silent {
    type Error = u8;

    fn poll_ready(
        &mut self,
        _: &mut Context<'_>,
        _: WaitSet,
        _: Option<u64>,
    ) -> PollState<Result<WaitSet, u8>> {
        PollState::Pending
    }
}

fn connection() -> StationConfig {
    let network = ScanResult {
        ssid: Ssid::try_from_bytes(b"home").unwrap(),
        bssid: [6, 5, 4, 3, 2, 1],
        frequency_mhz: 2412,
        rssi_dbm: -30,
        security: Security::Wpa2Personal,
        channel: 1,
    };
    let passphrase = Passphrase::try_from_ascii(b"testtest").unwrap();
    StationConfig::wpa2_personal(&network, passphrase, 500).unwrap()
}

#[test]
fn published_event_wakes_the_waiting_consumer() {
    let mut state = EventState::<u8, 2>::new();
    let (mut producer, mut consumer) = state.claim().unwrap();
    let (counter, waker) = counting();
    let mut cx = Context::from_waker(&waker);

    assert!(matches!(
        consumer.next_event(&mut state, &mut cx),
        PollState::Pending
    ));
    assert_eq!(wakes(&counter), 0);
    producer.try_publish(&mut state, 7).unwrap();
    assert_eq!(wakes(&counter), 1);
    producer.try_publish(&mut state, 8).unwrap();
    assert_eq!(wakes(&counter), 1);
    assert!(matches!(
        consumer.next_event(&mut state, &mut cx),
        PollState::Ready(7)
    ));
}

#[test]
fn terminal_result_wakes_the_stopping_guard() {
    let mut state = LifecycleState::<u8>::default();
    let mut runner = state.claim().unwrap();
    let id = runner.begin(&mut state).unwrap();
    let mut guard = runner.activate(&mut state, id).unwrap();
    let (counter, waker) = counting();
    let mut cx = Context::from_waker(&waker);

    assert!(matches!(
        guard.stop(&mut state, &mut cx),
        PollState::Pending
    ));
    assert_eq!(runner.try_take_cancel(&mut state), Some(id));
    assert_eq!(wakes(&counter), 0);
    runner.finish(&mut state, id, Ok(())).unwrap();
    assert_eq!(wakes(&counter), 1);
    assert!(matches!(
        guard.stop(&mut state, &mut cx),
        PollState::Ready(Ok(()))
    ));
    assert!(guard.is_over());
}

#[test]
fn command_and_completion_wake_runner_and_operation() {
    let mut state = RadioState::<2>::new();
    let radio = init(
        RadioConfig::default(),
        RadioResources {
            backend: Blocking,
            device: (),
        },
        &mut state,
    )
    .ok()
    .unwrap();
    let mut parts = radio.split();
    let (runner_counter, runner_waker) = counting();
    let mut runner_cx = Context::from_waker(&runner_waker);
    let (caller_counter, caller_waker) = counting();
    let mut caller_cx = Context::from_waker(&caller_waker);

    assert!(matches!(
        parts.runner.run(&mut state, &mut runner_cx),
        PollState::Pending
    ));
    let mut connect = parts.wifi.controller.connect(connection());
    assert!(matches!(
        connect.poll(&mut state, &mut caller_cx),
        PollState::Pending
    ));
    assert_eq!(wakes(&runner_counter), 1);
    assert_eq!(wakes(&caller_counter), 0);
    assert!(matches!(
        parts.runner.run(&mut state, &mut runner_cx),
        PollState::Ready(())
    ));
    assert_eq!(wakes(&caller_counter), 1);
    let PollState::Ready(kind) = connect.poll(&mut state, &mut caller_cx) else {
        panic!("connection is not answered");
    };
    assert_eq!(
        kind.into_connected(),
        Ok(ConnectionInfo {
            bssid: [6, 5, 4, 3, 2, 1],
            frequency_mhz: 2412,
        })
    );
}

#[test]
fn freed_command_slot_wakes_the_sending_operation() {
    let mut state = RadioState::<2>::new();
    let radio = init(
        RadioConfig::default(),
        RadioResources {
            backend: Blocking,
            device: (),
        },
        &mut state,
    )
    .ok()
    .unwrap();
    let mut parts = radio.split();
    let (counter, waker) = counting();
    let mut cx = Context::from_waker(&waker);
    let mut noop_cx = Context::from_waker(Waker::noop());

    let mut first = parts.wifi.controller.initialize();
    assert!(matches!(
        first.poll(&mut state, &mut noop_cx),
        PollState::Pending
    ));
    let mut second = parts.wifi.controller.disconnect();
    assert!(matches!(
        second.poll(&mut state, &mut cx),
        PollState::Pending
    ));
    assert_eq!(wakes(&counter), 0);
    assert!(parts.runner.run_once(&mut state));
    assert_eq!(wakes(&counter), 1);
}

#[test]
fn unsent_command_is_dropped_without_a_cancellation() {
    let mut state = RadioState::<4>::new();
    let radio = init(
        RadioConfig::default(),
        RadioResources {
            backend: Blocking,
            device: (),
        },
        &mut state,
    )
    .ok()
    .unwrap();
    let mut parts = radio.split();
    let mut cx = Context::from_waker(Waker::noop());

    let mut first = parts.wifi.controller.initialize();
    assert!(matches!(first.poll(&mut state, &mut cx), PollState::Pending));
    let mut second = parts.wifi.controller.connect(connection());
    assert!(matches!(
        second.poll(&mut state, &mut cx),
        PollState::Pending
    ));
    second.abandon(&mut state);
    assert!(second.is_over());
    assert!(parts.runner.run_once(&mut state));
    assert!(!parts.runner.run_once(&mut state));
    assert!(matches!(
        parts.wifi.controller.next_event(&mut state, &mut cx),
        PollState::Ready(WifiEvent::Initialized)
    ));
    assert!(matches!(
        parts.wifi.controller.next_event(&mut state, &mut cx),
        PollState::Pending
    ));
}

#[test]
fn abandoned_operation_wakes_the_unified_wait() {
    let mut state = RadioState::<4>::new();
    let radio = init(
        RadioConfig::default(),
        RadioResources {
            backend: Incremental,
            device: (),
        },
        &mut state,
    )
    .ok()
    .unwrap();
    let IncrementalRadioParts {
        mut wifi,
        mut runner,
    } = radio.split_incremental(WorkBudget::try_new(4, 100).unwrap());
    let (counter, waker) = counting();
    let mut cx = Context::from_waker(&waker);
    let mut noop_cx = Context::from_waker(Waker::noop());

    let mut idle = ReadyWait::new();
    assert!(matches!(
        runner.wait_ready(&mut idle, &mut state, &mut Silent, &mut cx),
        PollState::Pending
    ));
    let mut initialize = wifi.controller.initialize();
    assert!(matches!(
        initialize.poll(&mut state, &mut noop_cx),
        PollState::Pending
    ));
    assert_eq!(wakes(&counter), 1);

    assert!(matches!(
        runner.run_once(&mut state, WaitSet::empty()),
        Ok(IncrementalDriverEvent::Started { .. })
    ));
    assert!(matches!(
        runner.run_once(&mut state, WaitSet::empty()),
        Ok(IncrementalDriverEvent::Pending { .. })
    ));
    let mut wait = ReadyWait::new();
    assert!(matches!(
        runner.wait_ready(&mut wait, &mut state, &mut Silent, &mut cx),
        PollState::Pending
    ));
    initialize.abandon(&mut state);
    assert_eq!(wakes(&counter), 2);
    let PollState::Ready(Ok(ready)) = runner.wait_ready(&mut wait, &mut state, &mut Silent, &mut cx)
    else {
        panic!("cancellation did not end the wait");
    };
    assert_eq!(ready, WaitSet::cancel());
    assert!(matches!(
        runner.run_once(&mut state, ready),
        Ok(IncrementalDriverEvent::CancelRequested { .. })
    ));
}

#[test]
fn default_control_state_is_unclaimed_and_empty() {
    let mut state = ControlState::<u8, u8>::default();
    let (mut sender, mut receiver) = state.claim().unwrap();
    assert!(receiver.try_take_command(&mut state).is_none());
    assert!(sender.try_take_completion(&mut state).unwrap().is_none());
    assert_eq!(sender.outstanding(), None);
}

#[test]
fn step_can_be_taken_in_parts_without_the_shared_state() {
    let mut state = RadioState::<4>::new();
    let radio = init(
        RadioConfig::default(),
        RadioResources {
            backend: Incremental,
            device: (),
        },
        &mut state,
    )
    .ok()
    .unwrap();
    let IncrementalRadioParts {
        mut wifi,
        mut runner,
    } = radio.split_incremental(WorkBudget::try_new(4, 100).unwrap());
    let mut cx = Context::from_waker(Waker::noop());
    let mut output = [ScanResult::empty(); 1];
    let mut initialize = wifi.controller.initialize();
    assert!(matches!(
        initialize.poll(&mut state, &mut cx),
        PollState::Pending
    ));

    let taken = runner.intake(&mut state, WaitSet::empty()).unwrap();
    assert!(taken.is_none());
    let started = runner.drive(taken, WaitSet::empty(), &mut output);
    assert!(matches!(
        runner.settle(&mut state, started),
        Ok(IncrementalDriverEvent::Started { .. })
    ));

    initialize.abandon(&mut state);
    let taken = runner.intake(&mut state, WaitSet::empty()).unwrap();
    assert_eq!(taken.unwrap().get(), initialize.sequence());
    let cancelled = runner.drive(taken, WaitSet::empty(), &mut output);
    assert!(matches!(
        runner.settle(&mut state, cancelled),
        Ok(IncrementalDriverEvent::CancelRequested { .. })
    ));
    let counters = runner.diagnostics();
    assert_eq!(counters.run_once_calls, 2);
    assert_eq!(counters.operations_started, 1);
    assert_eq!(counters.cancellations_requested, 1);
}
