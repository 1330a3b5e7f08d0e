//! Chip-neutral radio control and L2 data-plane contracts.
//!
//! This crate owns the portable controller, runner, configuration, event, and
//! L2-device contracts.
//!
//! [`init`] claims caller-provided state and returns an exclusive
//! [`RadioController`]. Splitting it yields a [`WifiController`], a
//! [`WifiDevice`], and the mandatory [`RadioRunner`]. Only the runner calls the
//! chip backend; control operations merely enqueue commands and wait for their
//! completion.

use vstd::prelude::*;

pub mod ble;
pub mod control;
pub mod diagnostics;
pub mod incremental;
pub mod queue;
pub mod radio;
pub mod sle;
pub mod state;
pub mod text;
pub mod transport;
pub mod wifi;

pub use crate::diagnostics::{
    Diagnostic, DiagnosticCode, DiagnosticStage, RecoveryAction, DIAGNOSTIC_SCHEMA,
};
pub use crate::incremental::{
    CancelDirective, CancelOutcome, CommandArbiter, CommandArbiterAction, CommandArbiterError,
    CommandSequence, FairWakeSelector, IncrementalBackendDriver, IncrementalCompletion,
    IncrementalDriverError, IncrementalDriverEvent, IncrementalRadioParts, IncrementalRadioRunner,
    IncrementalRadioRunnerError, IncrementalRequest, IncrementalRunnerDiagnostics,
    IncrementalRunnerState, IncrementalWaitError, IncrementalWaitIntent, IncrementalWaitPlatform,
    IncrementalWifiBackend, OperationId, OperationLifecycle, OperationStateError, OperationTracker,
    PendingCommand, PollDisposition, PollState, ReadyWait, RunnerStateError, RunnerStep,
    RunnerTransition, SubmitError, WaitSet, WakeReason, WorkBudget, WorkReport,
};
pub use crate::radio::{
    copy_scan_results, init, ControlOperation, RadioController, RadioParts, RadioRunner,
    WifiController, WifiDevice, WifiParts,
};
pub use crate::state::RadioState;
pub use crate::wifi::{
    BackendError, BackendErrorClass, ConnectionInfo, EventDiagnostics, ManagementFrameProtection,
    Passphrase, PersonalSecurity, RadioConfig, RadioResources, SaePwe, ScanConfig, ScanOutcome,
    ScanResult, Security, Ssid, StationConfig, StationPolicy, WifiBackend, WifiConfig, WifiEvent,
    WifiL2Capabilities,
};

verus! {

/// Failure to establish or use the radio control plane.
#[derive(Clone, Copy, Debug, PartialEq, Eq, Structural)]
pub enum Error {
    /// The supplied [`RadioState`] has already been claimed.
    AlreadyInitialized,
    /// The chip backend rejected an operation.
    Backend(crate::wifi::BackendError),
    /// A backend completion did not match the outstanding command.
    Protocol,
}

} // verus!
