//! Validated Wi-Fi configuration, results, failures, and the blocking backend
//! contract.

use vstd::prelude::*;

pub mod security;

pub use crate::wifi::security::{ManagementFrameProtection, PersonalSecurity, SaePwe};

verus! {

/// Scan results retained by the runner for one completed scan.
pub const MAX_SCAN_RESULTS: usize = 32;

/// Longest SSID, in bytes.
pub const SSID_CAPACITY: usize = 32;

/// Longest Personal-mode passphrase, in bytes.
pub const PASSPHRASE_CAPACITY: usize = 63;

/// Wi-Fi control-plane defaults.
#[derive(Clone, Copy, Debug, PartialEq, Eq, Structural)]
pub struct WifiConfig {
    /// Maximum time a backend may spend initializing.
    pub initialize_timeout_ms: u32,
    /// Maximum time to wait for a disconnect event.
    pub disconnect_timeout_ms: u32,
}

impl Default for WifiConfig {
    fn default() -> (config: Self)
        ensures
            config.initialize_timeout_ms == 30_000,
            config.disconnect_timeout_ms == 10_000,
    {
        WifiConfig { initialize_timeout_ms: 30_000, disconnect_timeout_ms: 10_000 }
    }
}

/// Radio-wide configuration.
#[derive(Clone, Copy, Debug, PartialEq, Eq, Structural)]
#[non_exhaustive]
pub struct RadioConfig {
    /// Wi-Fi control-plane defaults.
    pub wifi: WifiConfig,
}

impl Default for RadioConfig {
    fn default() -> (config: Self)
        ensures
            config.wifi.initialize_timeout_ms == 30_000,
            config.wifi.disconnect_timeout_ms == 10_000,
    {
        RadioConfig { wifi: WifiConfig::default() }
    }
}

/// Validated IEEE 802.11 SSID bytes.
///
/// Storage past the length is zero, so the bytes alone identify the value.
#[derive(Clone, Copy, Debug, PartialEq, Eq)]
pub struct Ssid {
    bytes: [u8; SSID_CAPACITY],
    len: u8,
}

impl Ssid {
    /// The exact SSID bytes.
    pub closed spec fn view(&self) -> Seq<u8> {
        self.bytes@.take(self.len as int)
    }

    /// The length fits the storage and the unused tail is zero.
    #[verifier::type_invariant]
    pub closed spec fn wf(self) -> bool {
        &&& self.len <= SSID_CAPACITY
        &&& forall|i: int| self.len <= i < SSID_CAPACITY ==> #[trigger] self.bytes@[i] == 0
    }

    /// Validate and copy a non-empty SSID of at most 32 bytes.
    pub fn try_from_bytes(value: &[u8]) -> (ssid: Option<Self>)
        ensures
            ssid is Some <==> 1 <= value@.len() <= 32,
            ssid matches Some(s) ==> s@ == value@,
    {
        if value.len() == 0 || value.len() > SSID_CAPACITY {
            return None;
        }
        let mut bytes: [u8; SSID_CAPACITY] = [0; SSID_CAPACITY];
        let mut i: usize = 0;
        while i < value.len()
            invariant
                i <= value@.len() <= SSID_CAPACITY,
                bytes@.len() == SSID_CAPACITY,
                forall|j: int| 0 <= j < i ==> bytes@[j] == value@[j],
                forall|j: int| i <= j < SSID_CAPACITY ==> bytes@[j] == 0,
            decreases value@.len() - i,
        {
            bytes[i] = value[i];
            i = i + 1;
        }
        let ssid = Ssid { bytes, len: value.len() as u8 };
        assert(ssid@ =~= value@);
        Some(ssid)
    }

    /// Return the exact SSID bytes.
    pub fn as_bytes(&self) -> (bytes: &[u8])
        ensures
            bytes@ == self@,
    {
        proof {
            use_type_invariant(self);
        }
        &self.bytes[0..self.len as usize]
    }

    /// The zero-length placeholder used by unfilled scan slots.
    pub fn unset() -> (ssid: Self)
        ensures
            ssid@.len() == 0,
    {
        let ssid = Ssid { bytes: [0; SSID_CAPACITY], len: 0 };
        ssid
    }
}

/// Two SSIDs with the same bytes are the same value.
pub proof fn ssid_is_identified_by_its_bytes(a: Ssid, b: Ssid)
    requires
        a.wf(),
        b.wf(),
        a@ == b@,
    ensures
        a == b,
{
    assert(a.bytes@.len() == SSID_CAPACITY && b.bytes@.len() == SSID_CAPACITY);
    assert(a@.len() == a.len && b@.len() == b.len);
    assert forall|i: int| 0 <= i < SSID_CAPACITY implies a.bytes@[i] == b.bytes@[i] by {
        if i < a.len {
            assert(a@[i] == a.bytes@[i] && b@[i] == b.bytes@[i]);
        }
    }
    assert(a.bytes@ =~= b.bytes@);
    assert(a.bytes =~= b.bytes);
}

/// `core::hint::black_box` on a borrowed argument: a hint that keeps earlier
/// stores to it from being optimized away. Nothing is claimed of it.
#[verifier::external_body]
fn keep_stores(bytes: &[u8; PASSPHRASE_CAPACITY])
    opens_invariants none
    no_unwind
{
    let _ = core::hint::black_box(bytes);
}

/// Whether `byte` is a printable ASCII character.
pub open spec fn printable_ascii(byte: u8) -> bool {
    32 <= byte <= 126
}

/// Owned WPA2/WPA3-Personal passphrase that is erased on drop.
#[derive(Debug, PartialEq, Eq)]
pub struct Passphrase {
    bytes: [u8; PASSPHRASE_CAPACITY],
    len: u8,
}

impl Passphrase {
    /// The passphrase bytes; empty once erased.
    pub closed spec fn view(&self) -> Seq<u8> {
        self.bytes@.take(self.len as int)
    }

    /// No byte of the secret is left in the storage.
    pub closed spec fn is_erased(&self) -> bool {
        &&& self.len == 0
        &&& forall|i: int| 0 <= i < PASSPHRASE_CAPACITY ==> #[trigger] self.bytes@[i] == 0
    }

    /// The storage is either a validated passphrase or erased.
    #[verifier::type_invariant]
    pub closed spec fn wf(self) -> bool {
        &&& self.len == 0 || 8 <= self.len <= PASSPHRASE_CAPACITY
        &&& forall|i: int| 0 <= i < self.len ==> printable_ascii(#[trigger] self.bytes@[i])
    }

    /// Validate and copy an 8-63 byte printable ASCII passphrase.
    pub fn try_from_ascii(value: &[u8]) -> (passphrase: Option<Self>)
        ensures
            passphrase is Some <==> 8 <= value@.len() <= 63 && forall|i: int|
                0 <= i < value@.len() ==> printable_ascii(#[trigger] value@[i]),
            passphrase matches Some(p) ==> p@ == value@,
    {
        if value.len() < 8 || value.len() > PASSPHRASE_CAPACITY {
            return None;
        }
        let mut bytes: [u8; PASSPHRASE_CAPACITY] = [0; PASSPHRASE_CAPACITY];
        let mut i: usize = 0;
        while i < value.len()
            invariant
                i <= value@.len() <= PASSPHRASE_CAPACITY,
                8 <= value@.len(),
                bytes@.len() == PASSPHRASE_CAPACITY,
                forall|j: int| 0 <= j < i ==> printable_ascii(#[trigger] value@[j]),
                forall|j: int| 0 <= j < i ==> #[trigger] bytes@[j] == value@[j],
                forall|j: int| i <= j < PASSPHRASE_CAPACITY ==> #[trigger] bytes@[j] == 0,
            decreases value@.len() - i,
        {
            if value[i] < 32 || value[i] > 126 {
                return None;
            }
            bytes[i] = value[i];
            i = i + 1;
        }
        let passphrase = Passphrase { bytes, len: value.len() as u8 };
        assert(passphrase@ =~= value@);
        Some(passphrase)
    }

    /// Borrow the passphrase bytes for a backend call.
    pub fn expose_secret(&self) -> (bytes: &[u8])
        ensures
            bytes@ == self@,
    {
        proof {
            use_type_invariant(self);
        }
        &self.bytes[0..self.len as usize]
    }
}

impl Drop for Passphrase {
    /// Overwrite the secret with zeros.
    fn drop(&mut self)
        ensures
            final(self).is_erased(),
        opens_invariants none
        no_unwind
    {
        self.len = 0;
        let mut i: usize = 0;
        while i < PASSPHRASE_CAPACITY
            invariant
                i <= PASSPHRASE_CAPACITY,
                self.len == 0,
                forall|j: int| 0 <= j < i ==> #[trigger] self.bytes@[j] == 0,
            decreases PASSPHRASE_CAPACITY - i,
        {
            self.bytes[i] = 0;
            i = i + 1;
        }
        keep_stores(&self.bytes);
    }
}

/// Link-layer security discovered during scan.
#[derive(Clone, Copy, Debug, PartialEq, Eq, Structural)]
pub enum Security {
    /// Open network.
    Open,
    /// WPA2-Personal with CCMP.
    Wpa2Personal,
    /// WPA3-Personal with SAE and mandatory PMF.
    Wpa3Personal,
    /// A protected mode not yet represented by this public API.
    OtherProtected,
}

/// One chip-neutral bounded scan result.
#[derive(Clone, Copy, Debug, PartialEq, Eq)]
pub struct ScanResult {
    /// Advertised SSID.
    pub ssid: Ssid,
    /// Basic service set identifier.
    pub bssid: [u8; 6],
    /// Center frequency in MHz.
    pub frequency_mhz: u16,
    /// Signal strength in dBm.
    pub rssi_dbm: i16,
    /// Link-layer security class.
    pub security: Security,
    /// Primary channel when known, otherwise zero.
    pub channel: u8,
}

impl ScanResult {
    /// No field carries a value: an empty SSID, zero numbers, an open network.
    pub open spec fn is_blank(self) -> bool {
        &&& self.ssid@.len() == 0
        &&& forall|i: int| 0 <= i < 6 ==> #[trigger] self.bssid@[i] == 0
        &&& self.frequency_mhz == 0
        &&& self.rssi_dbm == 0
        &&& self.security == Security::Open
        &&& self.channel == 0
    }

    /// Empty value for caller-provided fixed scan buffers.
    pub fn empty() -> (result: Self)
        ensures
            result.is_blank(),
    {
        ScanResult {
            ssid: Ssid::unset(),
            bssid: [0; 6],
            frequency_mhz: 0,
            rssi_dbm: 0,
            security: Security::Open,
            channel: 0,
        }
    }
}

/// Bounded station scan request.
#[derive(Clone, Copy, Debug, PartialEq, Eq, Structural)]
pub struct ScanConfig {
    timeout_ms: u32,
}

impl ScanConfig {
    /// The timeout in milliseconds.
    pub closed spec fn view(&self) -> u32 {
        self.timeout_ms
    }

    #[verifier::type_invariant]
    spec fn wf(self) -> bool {
        self.timeout_ms != 0
    }

    /// Construct a scan request with a non-zero timeout.
    pub fn try_from_timeout_ms(timeout_ms: u32) -> (config: Option<Self>)
        ensures
            config is Some <==> timeout_ms != 0,
            config matches Some(c) ==> c@ == timeout_ms,
    {
        if timeout_ms == 0 {
            None
        } else {
            Some(ScanConfig { timeout_ms })
        }
    }

    /// Timeout passed to the chip backend.
    pub fn timeout_ms(self) -> (timeout_ms: u32)
        ensures
            timeout_ms == self@,
            timeout_ms != 0,
    {
        proof {
            use_type_invariant(&self);
        }
        self.timeout_ms
    }
}

/// Result count for a caller-provided scan buffer.
#[derive(Clone, Copy, Debug, PartialEq, Eq, Structural)]
pub struct ScanOutcome {
    /// Entries copied into the caller's buffer.
    pub count: usize,
    /// At least one result did not fit in the backend or caller buffer.
    pub truncated: bool,
}

/// Personal-mode security and association timeout of a station request.
///
/// Only the [`StationConfig`] constructors make one, so the security is the one
/// that the selected network advertised and the timeout is not zero.
#[derive(Debug, PartialEq, Eq)]
pub struct StationPolicy {
    security: PersonalSecurity,
    timeout_ms: u32,
}

impl StationPolicy {
    /// The security and the timeout in milliseconds.
    pub closed spec fn view(&self) -> (PersonalSecurity, u32) {
        (self.security, self.timeout_ms)
    }

    #[verifier::type_invariant]
    spec fn wf(self) -> bool {
        self.timeout_ms != 0
    }
}

/// Validated station connection request.
#[derive(Debug, PartialEq, Eq)]
pub struct StationConfig {
    /// SSID selected by the application.
    pub ssid: Ssid,
    /// BSSID selected by the immediately preceding scan.
    pub bssid: [u8; 6],
    /// Primary channel selected by the immediately preceding scan.
    pub channel: u8,
    /// WPA2/WPA3-Personal passphrase.
    pub passphrase: Passphrase,
    /// Security and timeout fixed by the constructor.
    pub policy: StationPolicy,
}

/// What a [`StationConfig`] asks the backend for.
#[verifier::ext_equal]
pub struct StationRequest {
    /// SSID bytes.
    pub ssid: Seq<u8>,
    /// BSSID bytes.
    pub bssid: Seq<u8>,
    /// Primary channel.
    pub channel: u8,
    /// Passphrase bytes.
    pub passphrase: Seq<u8>,
    /// Personal-mode security.
    pub security: PersonalSecurity,
    /// Association timeout in milliseconds.
    pub timeout_ms: u32,
}

/// The request for the network of `result`.
pub open spec fn station_request(
    result: ScanResult,
    passphrase: Seq<u8>,
    security: PersonalSecurity,
    timeout_ms: u32,
) -> StationRequest {
    StationRequest {
        ssid: result.ssid@,
        bssid: result.bssid@,
        channel: result.channel,
        passphrase,
        security,
        timeout_ms,
    }
}

impl StationConfig {
    /// The request that this value stands for.
    pub open spec fn view(&self) -> StationRequest {
        StationRequest {
            ssid: self.ssid@,
            bssid: self.bssid@,
            channel: self.channel,
            passphrase: self.passphrase@,
            security: self.policy@.0,
            timeout_ms: self.policy@.1,
        }
    }

    /// Select a WPA2-Personal scan result and take ownership of its passphrase.
    pub fn wpa2_personal(result: &ScanResult, passphrase: Passphrase, timeout_ms: u32) -> (config:
        Option<Self>)
        ensures
            config is Some <==> result.security == Security::Wpa2Personal && timeout_ms != 0,
            config matches Some(c) ==> c@ == station_request(
                *result,
                passphrase@,
                PersonalSecurity::Wpa2,
                timeout_ms,
            ),
    {
        if result.security != Security::Wpa2Personal || timeout_ms == 0 {
            return None;
        }
        Some(
            StationConfig {
                ssid: result.ssid,
                bssid: result.bssid,
                channel: result.channel,
                passphrase,
                policy: StationPolicy { security: PersonalSecurity::Wpa2, timeout_ms },
            },
        )
    }

    /// Select a WPA3-Personal scan result and take ownership of its passphrase.
    ///
    /// PMF is mandatory by construction; callers only choose the SAE
    /// password-element policy supported by their controlled deployment.
    pub fn wpa3_personal(
        result: &ScanResult,
        passphrase: Passphrase,
        sae_pwe: SaePwe,
        timeout_ms: u32,
    ) -> (config: Option<Self>)
        ensures
            config is Some <==> result.security == Security::Wpa3Personal && timeout_ms != 0,
            config matches Some(c) ==> c@ == station_request(
                *result,
                passphrase@,
                (PersonalSecurity::Wpa3 { sae_pwe }),
                timeout_ms,
            ),
    {
        if result.security != Security::Wpa3Personal || timeout_ms == 0 {
            return None;
        }
        Some(
            StationConfig {
                ssid: result.ssid,
                bssid: result.bssid,
                channel: result.channel,
                passphrase,
                policy: StationPolicy { security: PersonalSecurity::Wpa3 { sae_pwe }, timeout_ms },
            },
        )
    }

    /// Typed Personal-mode security consumed by the chip backend.
    pub fn security(&self) -> (security: PersonalSecurity)
        ensures
            security == self@.security,
    {
        self.policy.security
    }

    /// Maximum time to wait for association and authorization.
    pub fn timeout_ms(&self) -> (timeout_ms: u32)
        ensures
            timeout_ms == self@.timeout_ms,
            timeout_ms != 0,
    {
        proof {
            use_type_invariant(&self.policy);
        }
        self.policy.timeout_ms
    }

}

/// Successful station association.
#[derive(Clone, Copy, Debug, PartialEq, Eq)]
pub struct ConnectionInfo {
    /// Associated BSSID.
    pub bssid: [u8; 6],
    /// Associated center frequency in MHz.
    pub frequency_mhz: u16,
}

/// Stable class for backend-specific failures.
#[derive(Clone, Copy, Debug, PartialEq, Eq, Structural)]
pub enum BackendErrorClass {
    /// Radio initialization failed.
    Initialize,
    /// The requested operation is already active.
    Busy,
    /// A bounded operation timed out.
    Timeout,
    /// The requested security mode is unsupported.
    UnsupportedSecurity,
    /// Association or authorization failed.
    Connect,
    /// The operation was cancelled before it completed.
    Cancelled,
    /// A chip-specific failure outside the stable classes.
    Other,
}

/// Backend error with a stable class and lossless chip-specific code.
#[derive(Clone, Copy, Debug, PartialEq, Eq, Structural)]
pub struct BackendError {
    /// Stable failure class.
    pub class: BackendErrorClass,
    /// Chip/backend-specific diagnostic code.
    pub code: u32,
}

impl BackendError {
    /// Pair a stable class with the chip-specific code.
    pub fn new(class: BackendErrorClass, code: u32) -> (error: Self)
        ensures
            error == (BackendError { class, code }),
    {
        BackendError { class, code }
    }
}

/// Successful and failed state transitions emitted by the runner.
#[derive(Clone, Copy, Debug, PartialEq, Eq)]
pub enum WifiEvent {
    /// Backend initialization completed.
    Initialized,
    /// Scan completed and retained this many results.
    ScanCompleted {
        /// Results retained by the runner.
        count: usize,
        /// At least one result did not fit.
        truncated: bool,
    },
    /// Station association and authorization completed.
    Connected(ConnectionInfo),
    /// The station disconnected.
    Disconnected {
        /// Disconnect reason, zero for a local request.
        reason: u16,
    },
    /// An operation failed in the backend.
    Failed(BackendError),
}

/// Event queue overflow diagnostics.
#[derive(Clone, Copy, Debug, PartialEq, Eq, Structural)]
pub struct EventDiagnostics {
    /// Compile-time queue depth.
    pub capacity: usize,
    /// Events currently waiting for the controller.
    pub pending: usize,
    /// Oldest events discarded because the queue was full.
    pub dropped: u32,
}

/// Whether every byte is zero.
pub open spec fn all_zero(bytes: Seq<u8>) -> bool {
    forall|i: int| 0 <= i < bytes.len() ==> #[trigger] bytes[i] == 0
}

/// Link-layer properties that a backend reports once it is initialized.
#[derive(Clone, Copy, Debug, PartialEq, Eq)]
pub struct WifiL2Capabilities {
    station_mac_address: [u8; 6],
}

impl WifiL2Capabilities {
    /// The station MAC address in transmission order.
    pub closed spec fn view(&self) -> Seq<u8> {
        self.station_mac_address@
    }

    /// The address is usable: not all of its bytes are zero.
    #[verifier::type_invariant]
    pub closed spec fn wf(self) -> bool {
        !all_zero(self.station_mac_address@)
    }

    /// Validate a non-zero station MAC address.
    pub fn try_new(station_mac_address: [u8; 6]) -> (capabilities: Option<Self>)
        ensures
            capabilities is None <==> all_zero(station_mac_address@),
            capabilities matches Some(c) ==> c@ == station_mac_address@,
    {
        let mut i: usize = 0;
        while i < 6
            invariant
                i <= 6,
                station_mac_address@.len() == 6,
                forall|j: int| 0 <= j < i ==> #[trigger] station_mac_address@[j] == 0,
            decreases 6 - i,
        {
            let byte: u8 = station_mac_address[i];
            if byte != 0 {
                assert(station_mac_address@[i as int] != 0);
                assert(!all_zero(station_mac_address@));
                return Some(WifiL2Capabilities { station_mac_address });
            }
            i = i + 1;
        }
        None
    }

    /// Station MAC address in transmission order.
    pub fn station_mac_address(self) -> (address: [u8; 6])
        ensures
            address@ == self@,
    {
        self.station_mac_address
    }
}

/// One control call made to a [`WifiBackend`], with what it was handed and what
/// it returned.
#[allow(inconsistent_fields)]
pub enum WifiCall {
    /// `initialize` was called.
    Initialize {
        /// Configuration handed over.
        config: WifiConfig,
        /// Value returned.
        result: Result<(), BackendError>,
    },
    /// `scan` was called.
    Scan {
        /// Request handed over.
        config: ScanConfig,
        /// Result buffer as the call left it.
        output: Seq<ScanResult>,
        /// Value returned.
        result: Result<ScanOutcome, BackendError>,
    },
    /// `connect` was called.
    Connect {
        /// Request handed over.
        config: StationConfig,
        /// Value returned.
        result: Result<ConnectionInfo, BackendError>,
    },
    /// `disconnect` was called.
    Disconnect {
        /// Configuration handed over.
        config: WifiConfig,
        /// Value returned.
        result: Result<(), BackendError>,
    },
}

/// Chip backend driven exclusively by [`crate::RadioRunner`].
///
/// What a call returns is the backend's own decision. Each call has a relation
/// between the backend before and after it, what it was handed, and what it
/// returned. An implementation states there what it promises; the relations hold
/// of everything unless it does. Contracts of callers use them to say which call
/// was made, with what, and what came back.
pub trait WifiBackend: Sized {
    /// `initialize` may turn `before` into `after`, handed the configuration.
    open spec fn initializes(
        before: Self,
        config: WifiConfig,
        after: Self,
        result: Result<(), BackendError>,
    ) -> bool {
        true
    }

    /// `scan` may turn `before` into `after` and the result buffer `given` into
    /// `output`, handed the request.
    open spec fn scans(
        before: Self,
        config: ScanConfig,
        given: Seq<ScanResult>,
        after: Self,
        output: Seq<ScanResult>,
        result: Result<ScanOutcome, BackendError>,
    ) -> bool {
        true
    }

    /// `connect` may turn `before` into `after`, handed the request.
    open spec fn connects(
        before: Self,
        config: StationConfig,
        after: Self,
        result: Result<ConnectionInfo, BackendError>,
    ) -> bool {
        true
    }

    /// `disconnect` may turn `before` into `after`, handed the configuration.
    open spec fn disconnects(
        before: Self,
        config: WifiConfig,
        after: Self,
        result: Result<(), BackendError>,
    ) -> bool {
        true
    }

    /// `poll` may turn `before` into `after`.
    open spec fn works(before: Self, after: Self, result: Result<bool, BackendError>) -> bool {
        true
    }

    /// Initialize the vendor/ROM radio runtime.
    fn initialize(&mut self, config: &WifiConfig) -> (result: Result<(), BackendError>)
        ensures
            Self::initializes(*old(self), *config, *final(self), result),
    ;

    /// Scan into the fixed runner-owned buffer.
    fn scan(&mut self, config: ScanConfig, output: &mut [ScanResult]) -> (result: Result<
        ScanOutcome,
        BackendError,
    >)
        ensures
            Self::scans(
                *old(self),
                config,
                old(output)@,
                *final(self),
                final(output)@,
                result,
            ),
            final(output)@.len() == old(output)@.len(),
    ;

    /// Associate and authorize one station connection.
    fn connect(&mut self, config: &StationConfig) -> (result: Result<ConnectionInfo, BackendError>)
        ensures
            Self::connects(*old(self), *config, *final(self), result),
    ;

    /// Disconnect the station interface.
    fn disconnect(&mut self, config: &WifiConfig) -> (result: Result<(), BackendError>)
        ensures
            Self::disconnects(*old(self), *config, *final(self), result),
    ;

    /// Advance bounded background work owned by the radio runner.
    ///
    /// Push-only backends may keep the default implementation, which has no
    /// work. Host-side protocol engines use this seam for event-loop deadlines
    /// and queued RX; it must not invoke application callbacks.
    fn poll(&mut self) -> (result: Result<bool, BackendError>)
        ensures
            Self::works(*old(self), *final(self), result) || *final(self) == *old(self) && result
                is Ok && !result->Ok_0,
    {
        Ok(false)
    }
}

/// `call`, if any, is the one control call that turned `before` into `after`,
/// handed the result buffer `given`.
pub open spec fn control_steps<B: WifiBackend>(
    before: B,
    given: Seq<ScanResult>,
    call: Option<WifiCall>,
    after: B,
) -> bool {
    match call {
        None => after == before,
        Some(WifiCall::Initialize { config, result }) => B::initializes(
            before,
            config,
            after,
            result,
        ),
        Some(WifiCall::Scan { config, output, result }) => B::scans(
            before,
            config,
            given,
            after,
            output,
            result,
        ),
        Some(WifiCall::Connect { config, result }) => B::connects(before, config, after, result),
        Some(WifiCall::Disconnect { config, result }) => B::disconnects(
            before,
            config,
            after,
            result,
        ),
    }
}

/// Caller-provided chip resources.
pub struct RadioResources<B, D> {
    /// Control-plane backend moved into the runner.
    pub backend: B,
    /// L2 device moved into the Wi-Fi data plane.
    pub device: D,
}

/// A network name comes back byte for byte, and exactly the names of one to thirty-
/// two bytes are accepted.
pub proof fn ssid_bytes_come_back(
    value: &[u8],
    made: Option<Ssid>,
    bytes: &[u8],
)
    requires
        call_ensures(Ssid::try_from_bytes, (value,), made),
        made matches Some(ssid) ==> call_ensures(Ssid::as_bytes, (&ssid,), bytes),
    ensures
        made is None <==> value@.len() == 0 || value@.len() > 32,
        made is Some ==> bytes@ == value@,
{
}

/// A passphrase comes back byte for byte, and exactly eight to sixty-three bytes from
/// the blank to the tilde are accepted.
pub proof fn passphrase_bytes_come_back(
    value: &[u8],
    made: Option<Passphrase>,
    bytes: &[u8],
)
    requires
        call_ensures(Passphrase::try_from_ascii, (value,), made),
        made matches Some(passphrase) ==> call_ensures(
            Passphrase::expose_secret,
            (&passphrase,),
            bytes,
        ),
    ensures
        made is Some <==> 8 <= value@.len() <= 63 && forall|i: int|
            0 <= i < value@.len() ==> 0x20 <= #[trigger] value@[i] <= 0x7e,
        made is Some ==> bytes@ == value@,
{
}

/// A scan waits as long as it was asked to, which is never no time at all.
pub proof fn scan_timeout_comes_back(
    timeout_ms: u32,
    made: Option<ScanConfig>,
    kept: u32,
)
    requires
        call_ensures(ScanConfig::try_from_timeout_ms, (timeout_ms,), made),
        made matches Some(config) ==> call_ensures(ScanConfig::timeout_ms, (config,), kept),
    ensures
        made is None <==> timeout_ms == 0,
        made is Some ==> kept == timeout_ms,
{
}

/// A WPA2-Personal request asks for the network that was selected, with the
/// passphrase, the security, and the timeout that were given, and for no network of
/// another security.
pub proof fn wpa2_request_is_for_the_selected_network(
    result: ScanResult,
    passphrase: Passphrase,
    timeout_ms: u32,
    made: Option<StationConfig>,
    security: PersonalSecurity,
    kept: u32,
)
    requires
        call_ensures(StationConfig::wpa2_personal, (&result, passphrase, timeout_ms,), made),
        made matches Some(config) ==> call_ensures(StationConfig::security, (&config,), security),
        made matches Some(config) ==> call_ensures(StationConfig::timeout_ms, (&config,), kept),
    ensures
        made is Some <==> result.security is Wpa2Personal && timeout_ms != 0,
        made matches Some(config) ==> {
            &&& config.ssid@ == result.ssid@
            &&& config.bssid@ == result.bssid@
            &&& config.channel == result.channel
            &&& config.passphrase@ == passphrase@
            &&& security is Wpa2
            &&& kept == timeout_ms
        },
{
}

/// A WPA3-Personal request asks for the network that was selected, with the
/// passphrase, the security, and the timeout that were given, and for no network of
/// another security.
pub proof fn wpa3_request_is_for_the_selected_network(
    result: ScanResult,
    passphrase: Passphrase,
    sae_pwe: SaePwe,
    timeout_ms: u32,
    made: Option<StationConfig>,
    security: PersonalSecurity,
    kept: u32,
)
    requires
        call_ensures(
            StationConfig::wpa3_personal,
            (&result, passphrase, sae_pwe, timeout_ms,),
            made,
        ),
        made matches Some(config) ==> call_ensures(StationConfig::security, (&config,), security),
        made matches Some(config) ==> call_ensures(StationConfig::timeout_ms, (&config,), kept),
    ensures
        made is Some <==> result.security is Wpa3Personal && timeout_ms != 0,
        made matches Some(config) ==> {
            &&& config.ssid@ == result.ssid@
            &&& config.bssid@ == result.bssid@
            &&& config.channel == result.channel
            &&& config.passphrase@ == passphrase@
            &&& security == (PersonalSecurity::Wpa3 { sae_pwe })
            &&& kept == timeout_ms
        },
{
}

/// A station address comes back byte for byte; only the all-zero one is refused.
pub proof fn station_address_comes_back(
    address: [u8; 6],
    made: Option<WifiL2Capabilities>,
    kept: [u8; 6],
)
    requires
        call_ensures(WifiL2Capabilities::try_new, (address,), made),
        made matches Some(capabilities) ==> call_ensures(
            WifiL2Capabilities::station_mac_address,
            (capabilities,),
            kept,
        ),
    ensures
        made is None <==> forall|i: int| 0 <= i < 6 ==> #[trigger] address@[i] == 0,
        made is Some ==> kept@ == address@,
{
}


} // verus!
