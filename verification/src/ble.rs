//! Chip-neutral Bluetooth Low Energy GAP configuration contracts.

use vstd::prelude::*;

verus! {

/// Longest legacy advertising payload, in bytes.
pub const LEGACY_ADV_DATA_CAPACITY: usize = 31;

/// UUID of the client characteristic configuration descriptor.
pub const CCC_DESCRIPTOR_UUID: u16 = 0x2902;

/// Address kind carried by a BLE GAP operation.
#[derive(Clone, Copy, Debug, PartialEq, Eq, Structural)]
pub enum AddressType {
    /// Controller-assigned public device address.
    Public,
    /// Static random device address.
    RandomStatic,
    /// Resolvable private address whose identity may be resolved by an IRK.
    ResolvablePrivate,
    /// Non-resolvable private address used only as an ephemeral identity.
    NonResolvablePrivate,
}

/// The random bits from byte `from` up to the six low bits of the last byte are
/// all `byte`, and the six low bits are `low`.
pub open spec fn random_bits_are(bytes: Seq<u8>, from: int, byte: u8, low: int) -> bool {
    &&& forall|i: int| from <= i < 5 ==> #[trigger] bytes[i] == byte
    &&& bytes[5] % 64 == low
}

/// The random bits from byte `from` on are neither all zero nor all one.
pub open spec fn random_bits_mixed(bytes: Seq<u8>, from: int) -> bool {
    !random_bits_are(bytes, from, 0, 0) && !random_bits_are(bytes, from, 0xff, 63)
}

/// The kind of a random address, by its two most-significant bits: `11` is
/// static, `01` resolvable, `00` non-resolvable, and `10` is reserved.
pub open spec fn random_address_type(bytes: Seq<u8>) -> Option<AddressType> {
    if bytes[5] / 64 == 3 && random_bits_mixed(bytes, 0) {
        Some(AddressType::RandomStatic)
    } else if bytes[5] / 64 == 1 && random_bits_mixed(bytes, 3) {
        Some(AddressType::ResolvablePrivate)
    } else if bytes[5] / 64 == 0 && !crate::wifi::all_zero(bytes) {
        Some(AddressType::NonResolvablePrivate)
    } else {
        None
    }
}

/// Validated BLE device address.
#[derive(Clone, Copy, Debug, PartialEq, Eq)]
pub struct BluetoothAddress {
    bytes: [u8; 6],
    kind: AddressType,
}

impl BluetoothAddress {
    /// The bytes and the kind.
    pub closed spec fn view(&self) -> (Seq<u8>, AddressType) {
        (self.bytes@, self.kind)
    }

    /// The kind fits the bytes.
    #[verifier::type_invariant]
    pub closed spec fn wf(self) -> bool {
        if self.kind == AddressType::Public {
            !crate::wifi::all_zero(self.bytes@)
        } else {
            random_address_type(self.bytes@) == Some(self.kind)
        }
    }

    /// Validate a non-zero public device address.
    pub fn public(bytes: [u8; 6]) -> (address: Option<Self>)
        ensures
            address is Some <==> !crate::wifi::all_zero(bytes@),
            address matches Some(a) ==> a@ == (bytes@, AddressType::Public),
    {
        if all_equal(bytes, 0) {
            None
        } else {
            Some(BluetoothAddress { bytes, kind: AddressType::Public })
        }
    }

    /// Validate a static random address according to the two most-significant bits.
    pub fn random_static(bytes: [u8; 6]) -> (address: Option<Self>)
        ensures
            address is Some <==> random_address_type(bytes@) == Some(AddressType::RandomStatic),
            address matches Some(a) ==> a@ == (bytes@, AddressType::RandomStatic),
    {
        let last: u8 = bytes[5];
        proof {
            lemma_top_bits(last);
            assert(random_bits_are(bytes@, 0, 0, 0) <==> bytes@[0] == 0 && bytes@[1] == 0
                && bytes@[2] == 0 && bytes@[3] == 0 && bytes@[4] == 0 && last % 64 == 0);
            assert(random_bits_are(bytes@, 0, 0xff, 63) <==> bytes@[0] == 0xff && bytes@[1]
                == 0xff && bytes@[2] == 0xff && bytes@[3] == 0xff && bytes@[4] == 0xff && last
                % 64 == 63);
        }
        let random_part_is_zero = bytes[0] == 0 && bytes[1] == 0 && bytes[2] == 0 && bytes[3] == 0
            && bytes[4] == 0 && last & 0x3f == 0;
        let random_part_is_one = bytes[0] == 0xff && bytes[1] == 0xff && bytes[2] == 0xff
            && bytes[3] == 0xff && bytes[4] == 0xff && last & 0x3f == 0x3f;
        if last & 0xc0 != 0xc0 || random_part_is_zero || random_part_is_one {
            None
        } else {
            Some(BluetoothAddress { bytes, kind: AddressType::RandomStatic })
        }
    }

    /// Classify and validate a controller-reported random device address.
    ///
    /// The two most-significant bits distinguish non-resolvable private,
    /// resolvable private, and static random addresses. The reserved `10`
    /// pattern is rejected.
    pub fn random(bytes: [u8; 6]) -> (address: Option<Self>)
        ensures
            match random_address_type(bytes@) {
                Some(kind) => address matches Some(a) && a@ == (bytes@, kind),
                None => address is None,
            },
    {
        let last: u8 = bytes[5];
        proof {
            lemma_top_bits(last);
        }
        let top: u8 = last & 0xc0;
        if top == 0xc0 {
            Self::random_static(bytes)
        } else if top == 0x40 {
            let low: u8 = bytes[3];
            let middle: u8 = bytes[4];
            let random_part: u32 = low as u32 | ((middle as u32) << 8) | (((last & 0x3f) as u32)
                << 16);
            proof {
                lemma_random_part(low, middle, last);
                assert(random_bits_are(bytes@, 3, 0, 0) <==> low == 0 && middle == 0 && last % 64
                    == 0);
                assert(random_bits_are(bytes@, 3, 0xff, 63) <==> low == 0xff && middle == 0xff
                    && last % 64 == 63);
            }
            if random_part == 0 || random_part == 0x3f_ffff {
                None
            } else {
                Some(BluetoothAddress { bytes, kind: AddressType::ResolvablePrivate })
            }
        } else if top == 0x00 {
            if all_equal(bytes, 0) {
                None
            } else {
                Some(BluetoothAddress { bytes, kind: AddressType::NonResolvablePrivate })
            }
        } else {
            None
        }
    }

    /// Return the address bytes in controller byte order.
    pub fn bytes(self) -> (bytes: [u8; 6])
        ensures
            bytes@ == self@.0,
    {
        self.bytes
    }

    /// Return the validated address kind.
    pub fn address_type(self) -> (kind: AddressType)
        ensures
            kind == self@.1,
            if kind == AddressType::Public {
                !crate::wifi::all_zero(self@.0)
            } else {
                random_address_type(self@.0) == Some(kind)
            },
    {
        proof {
            use_type_invariant(&self);
        }
        self.kind
    }
}

/// The two most-significant and the six low bits of a byte.
proof fn lemma_top_bits(byte: u8)
    ensures
        byte & 0xc0 == 0xc0 <==> byte / 64 == 3,
        byte & 0xc0 == 0x40 <==> byte / 64 == 1,
        byte & 0xc0 == 0x00 <==> byte / 64 == 0,
        byte & 0x3f == byte % 64,
{
    assert((byte & 0xc0 == 0xc0 <==> byte / 64 == 3) && (byte & 0xc0 == 0x40 <==> byte / 64 == 1)
        && (byte & 0xc0 == 0x00 <==> byte / 64 == 0) && byte & 0x3f == byte % 64) by (bit_vector);
}

/// The assembled random part is zero or full exactly when its bytes are.
proof fn lemma_random_part(low: u8, middle: u8, last: u8)
    ensures
        (low as u32 | ((middle as u32) << 8) | (((last & 0x3f) as u32) << 16)) == 0 <==> low == 0
            && middle == 0 && last % 64 == 0,
        (low as u32 | ((middle as u32) << 8) | (((last & 0x3f) as u32) << 16)) == 0x3f_ffff <==> low
            == 0xff && middle == 0xff && last % 64 == 63,
{
    assert(((low as u32 | ((middle as u32) << 8) | (((last & 0x3f) as u32) << 16)) == 0 <==> low
        == 0 && middle == 0 && last % 64 == 0) && ((low as u32 | ((middle as u32) << 8) | (((last
        & 0x3f) as u32) << 16)) == 0x3f_ffff <==> low == 0xff && middle == 0xff && last % 64 == 63))
        by (bit_vector);
}

fn all_equal(bytes: [u8; 6], value: u8) -> (equal: bool)
    ensures
        equal == (forall|i: int| 0 <= i < 6 ==> #[trigger] bytes@[i] == value),
{
    let equal = bytes[0] == value && bytes[1] == value && bytes[2] == value && bytes[3] == value
        && bytes[4] == value && bytes[5] == value;
    assert(equal ==> forall|i: int| 0 <= i < 6 ==> #[trigger] bytes@[i] == value);
    assert(!equal ==> bytes@[0] != value || bytes@[1] != value || bytes@[2] != value || bytes@[3]
        != value || bytes@[4] != value || bytes@[5] != value);
    equal
}

/// Whether successful pairing should create a persistent bond.
#[derive(Clone, Copy, Debug, PartialEq, Eq, Structural)]
pub enum Bonding {
    /// Encrypt the active link without retaining long-term peer state.
    Disabled,
    /// Retain the peer relationship through an injected bond store.
    Enabled,
}

/// Local input/output capabilities used by Bluetooth pairing association.
#[derive(Clone, Copy, Debug, PartialEq, Eq, Structural)]
pub enum IoCapability {
    /// The device can display a value but cannot confirm or enter one.
    DisplayOnly,
    /// The device can display a value and accept a yes/no confirmation.
    DisplayYesNo,
    /// The device can enter a value but cannot display one.
    KeyboardOnly,
    /// The device has no pairing input or output capability.
    NoInputNoOutput,
    /// The device can both display and enter a value.
    KeyboardDisplay,
}

/// Minimum link-security property requested from the BLE host.
#[derive(Clone, Copy, Debug, PartialEq, Eq, Structural)]
pub enum SecurityRequirement {
    /// Unauthenticated pairing followed by link encryption.
    Encrypted,
    /// Authenticated pairing followed by link encryption.
    Authenticated,
    /// Authenticated LE Secure Connections pairing and encryption.
    SecureConnectionsAuthenticated,
}

/// Validated BLE pairing policy.
///
/// The chip adapter maps this semantic policy to its own GAP security values;
/// raw controller encodings and key bytes never cross this boundary.
#[derive(Clone, Copy, Debug, PartialEq, Eq)]
pub struct SecurityConfig {
    bonding: Bonding,
    io_capability: IoCapability,
    requirement: SecurityRequirement,
}

impl SecurityConfig {
    /// The fields, in declaration order.
    pub closed spec fn view(&self) -> (Bonding, IoCapability, SecurityRequirement) {
        (self.bonding, self.io_capability, self.requirement)
    }

    /// Construct an explicit pairing policy.
    pub fn new(bonding: Bonding, io_capability: IoCapability, requirement: SecurityRequirement) -> (config: Self)
        ensures
            config@ == (bonding, io_capability, requirement),
    {
        SecurityConfig { bonding, io_capability, requirement }
    }

    /// Whether a successful pairing should be retained.
    pub fn bonding(self) -> (bonding: Bonding)
        ensures
            bonding == self@.0,
    {
        self.bonding
    }

    /// Local association-model capability.
    pub fn io_capability(self) -> (io_capability: IoCapability)
        ensures
            io_capability == self@.1,
    {
        self.io_capability
    }

    /// Minimum security property required for completion.
    pub fn requirement(self) -> (requirement: SecurityRequirement)
        ensures
            requirement == self@.2,
    {
        self.requirement
    }
}

/// Pairing lifecycle state reported without exposing vendor encodings.
#[derive(Clone, Copy, Debug, PartialEq, Eq, Structural)]
pub enum PairingState {
    /// The peer has no active or completed pairing relationship.
    NotPaired,
    /// A pairing operation is in progress.
    Pairing,
    /// Pairing completed successfully for the active peer.
    Paired,
}

/// Legacy advertising interval in 0.625 ms controller units.
#[derive(Clone, Copy, Debug, PartialEq, Eq, PartialOrd, Ord, Structural)]
pub struct AdvertisingInterval {
    units: u16,
}

impl AdvertisingInterval {
    /// The controller units.
    pub closed spec fn view(&self) -> u16 {
        self.units
    }

    #[verifier::type_invariant]
    spec fn wf(self) -> bool {
        0x20 <= self.units <= 0x4000
    }

    /// Validate the Bluetooth legacy-advertising interval range.
    pub fn try_from_units(units: u16) -> (interval: Option<Self>)
        ensures
            interval is Some <==> 0x20 <= units <= 0x4000,
            interval matches Some(i) ==> i@ == units,
    {
        if units < 0x20 || units > 0x4000 {
            None
        } else {
            Some(AdvertisingInterval { units })
        }
    }

    /// Return the 0.625 ms controller units.
    pub fn as_units(self) -> (units: u16)
        ensures
            units == self@,
            0x20 <= units <= 0x4000,
    {
        proof {
            use_type_invariant(&self);
        }
        self.units
    }
}

/// Ordered advertising interval range.
#[derive(Clone, Copy, Debug, PartialEq, Eq, Structural)]
pub struct AdvertisingTiming {
    minimum: AdvertisingInterval,
    maximum: AdvertisingInterval,
}

impl AdvertisingTiming {
    /// The minimum and the maximum.
    pub closed spec fn view(&self) -> (AdvertisingInterval, AdvertisingInterval) {
        (self.minimum, self.maximum)
    }

    #[verifier::type_invariant]
    spec fn wf(self) -> bool {
        self.minimum@ <= self.maximum@
    }

    /// Validate that the minimum does not exceed the maximum.
    pub fn try_new(minimum: AdvertisingInterval, maximum: AdvertisingInterval) -> (timing: Option<Self>)
        ensures
            timing is Some <==> minimum@ <= maximum@,
            timing matches Some(t) ==> t@ == (minimum, maximum),
    {
        if minimum.units > maximum.units {
            None
        } else {
            Some(AdvertisingTiming { minimum, maximum })
        }
    }

    /// Smallest selected interval.
    pub fn minimum(self) -> (minimum: AdvertisingInterval)
        ensures
            minimum == self@.0,
            self@.0@ <= self@.1@,
    {
        proof {
            use_type_invariant(&self);
        }
        self.minimum
    }

    /// Largest selected interval.
    pub fn maximum(self) -> (maximum: AdvertisingInterval)
        ensures
            maximum == self@.1,
            self@.0@ <= self@.1@,
    {
        proof {
            use_type_invariant(&self);
        }
        self.maximum
    }
}

/// Non-empty subset of the three primary advertising channels.
#[derive(Clone, Copy, Debug, PartialEq, Eq, Structural)]
pub struct AdvertisingChannels {
    bits: u8,
}

impl AdvertisingChannels {
    /// The channel bitmap.
    pub closed spec fn view(&self) -> u8 {
        self.bits
    }

    #[verifier::type_invariant]
    spec fn wf(self) -> bool {
        1 <= self.bits <= 7
    }

    /// Channels 37, 38, and 39.
    pub fn all() -> (channels: Self)
        ensures
            channels@ == 7,
    {
        AdvertisingChannels { bits: 0x07 }
    }

    /// Validate a controller channel bitmap.
    pub fn try_from_bits(bits: u8) -> (channels: Option<Self>)
        ensures
            channels is Some <==> 1 <= bits <= 7,
            channels matches Some(c) ==> c@ == bits,
    {
        assert(bits & !0x07u8 != 0 <==> bits > 7) by (bit_vector);
        if bits == 0 || bits & !0x07 != 0 {
            None
        } else {
            Some(AdvertisingChannels { bits })
        }
    }

    /// Return the three-bit controller bitmap.
    pub fn bits(self) -> (bits: u8)
        ensures
            bits == self@,
            1 <= bits <= 7,
    {
        proof {
            use_type_invariant(&self);
        }
        self.bits
    }
}

/// Owned, bounded legacy advertising payload.
///
/// Storage past the length is zero, so the bytes alone identify the value.
#[derive(Clone, Copy, Debug, PartialEq, Eq)]
pub struct AdvertisingPayload {
    bytes: [u8; LEGACY_ADV_DATA_CAPACITY],
    len: u8,
}

impl AdvertisingPayload {
    /// The exact payload bytes.
    pub closed spec fn view(&self) -> Seq<u8> {
        self.bytes@.take(self.len as int)
    }

    /// The length fits the storage and the unused tail is zero.
    #[verifier::type_invariant]
    pub closed spec fn wf(self) -> bool {
        &&& self.len <= LEGACY_ADV_DATA_CAPACITY
        &&& forall|i: int| self.len <= i < LEGACY_ADV_DATA_CAPACITY ==> #[trigger] self.bytes@[i] == 0
    }

    /// Copy at most 31 bytes into fixed-capacity storage.
    pub fn try_from_slice(value: &[u8]) -> (payload: Option<Self>)
        ensures
            payload is Some <==> value@.len() <= 31,
            payload matches Some(p) ==> p@ == value@,
    {
        if value.len() > LEGACY_ADV_DATA_CAPACITY {
            return None;
        }
        let mut bytes: [u8; LEGACY_ADV_DATA_CAPACITY] = [0; LEGACY_ADV_DATA_CAPACITY];
        let mut i: usize = 0;
        while i < value.len()
            invariant
                i <= value@.len() <= LEGACY_ADV_DATA_CAPACITY,
                bytes@.len() == LEGACY_ADV_DATA_CAPACITY,
                forall|j: int| 0 <= j < i ==> #[trigger] bytes@[j] == value@[j],
                forall|j: int| i <= j < LEGACY_ADV_DATA_CAPACITY ==> #[trigger] bytes@[j] == 0,
            decreases value@.len() - i,
        {
            bytes[i] = value[i];
            i = i + 1;
        }
        let payload = AdvertisingPayload { bytes, len: value.len() as u8 };
        assert(payload@ =~= value@);
        Some(payload)
    }

    /// Exact payload bytes.
    pub fn as_bytes(&self) -> (bytes: &[u8])
        ensures
            bytes@ == self@,
            bytes@.len() <= 31,
    {
        proof {
            use_type_invariant(self);
        }
        &self.bytes[0..self.len as usize]
    }
}

/// A valid payload is exactly its bytes.
pub proof fn advertising_payload_is_its_bytes(a: AdvertisingPayload, b: AdvertisingPayload)
    requires
        a.wf(),
        b.wf(),
        a@ == b@,
    ensures
        a == b,
{
    assert(a.bytes@.len() == LEGACY_ADV_DATA_CAPACITY && b.bytes@.len() == LEGACY_ADV_DATA_CAPACITY);
    assert(a@.len() == a.len && b@.len() == b.len);
    assert forall|i: int| 0 <= i < LEGACY_ADV_DATA_CAPACITY implies a.bytes@[i] == b.bytes@[i] by {
        if i < a.len {
            assert(a@[i] == a.bytes@[i] && b@[i] == b.bytes@[i]);
        }
    }
    assert(a.bytes@ =~= b.bytes@);
    assert(a.bytes == b.bytes);
}

/// Typed legacy advertising request.
#[derive(Clone, Copy, Debug, PartialEq, Eq)]
pub struct AdvertisingConfig {
    timing: AdvertisingTiming,
    channels: AdvertisingChannels,
    payload: AdvertisingPayload,
}

impl AdvertisingConfig {
    /// The fields, in declaration order.
    pub closed spec fn view(&self) -> (AdvertisingTiming, AdvertisingChannels, AdvertisingPayload) {
        (self.timing, self.channels, self.payload)
    }

    /// Construct a request from independently validated fields.
    pub fn new(timing: AdvertisingTiming, channels: AdvertisingChannels, payload: AdvertisingPayload) -> (config: Self)
        ensures
            config@ == (timing, channels, payload),
    {
        AdvertisingConfig { timing, channels, payload }
    }

    /// Selected timing range.
    pub fn timing(self) -> (timing: AdvertisingTiming)
        ensures
            timing == self@.0,
    {
        self.timing
    }

    /// Selected primary channels.
    pub fn channels(self) -> (channels: AdvertisingChannels)
        ensures
            channels == self@.1,
    {
        self.channels
    }

    /// Borrow the bounded payload.
    pub fn payload(&self) -> (payload: &AdvertisingPayload)
        ensures
            *payload == self@.2,
    {
        &self.payload
    }
}

/// Scan interval or window in 0.625 ms controller units.
#[derive(Clone, Copy, Debug, PartialEq, Eq, PartialOrd, Ord, Structural)]
pub struct ScanInterval {
    units: u16,
}

impl ScanInterval {
    /// The controller units.
    pub closed spec fn view(&self) -> u16 {
        self.units
    }

    #[verifier::type_invariant]
    spec fn wf(self) -> bool {
        0x0004 <= self.units <= 0x4000
    }

    /// Validate the controller scan timing range.
    pub fn try_from_units(units: u16) -> (interval: Option<Self>)
        ensures
            interval is Some <==> 0x0004 <= units <= 0x4000,
            interval matches Some(i) ==> i@ == units,
    {
        if units < 0x0004 || units > 0x4000 {
            None
        } else {
            Some(ScanInterval { units })
        }
    }

    /// Return the 0.625 ms controller units.
    pub fn as_units(self) -> (units: u16)
        ensures
            units == self@,
            0x0004 <= units <= 0x4000,
    {
        proof {
            use_type_invariant(&self);
        }
        self.units
    }
}

/// Scan interval and window with `window <= interval` guaranteed.
#[derive(Clone, Copy, Debug, PartialEq, Eq, Structural)]
pub struct ScanTiming {
    interval: ScanInterval,
    window: ScanInterval,
}

impl ScanTiming {
    /// The interval and the window.
    pub closed spec fn view(&self) -> (ScanInterval, ScanInterval) {
        (self.interval, self.window)
    }

    #[verifier::type_invariant]
    spec fn wf(self) -> bool {
        self.window@ <= self.interval@
    }

    /// Validate one scan timing pair.
    pub fn try_new(interval: ScanInterval, window: ScanInterval) -> (timing: Option<Self>)
        ensures
            timing is Some <==> window@ <= interval@,
            timing matches Some(t) ==> t@ == (interval, window),
    {
        if window.units > interval.units {
            None
        } else {
            Some(ScanTiming { interval, window })
        }
    }

    /// Repetition interval.
    pub fn interval(self) -> (interval: ScanInterval)
        ensures
            interval == self@.0,
            self@.1@ <= self@.0@,
    {
        proof {
            use_type_invariant(&self);
        }
        self.interval
    }

    /// Active scan window.
    pub fn window(self) -> (window: ScanInterval)
        ensures
            window == self@.1,
            self@.1@ <= self@.0@,
    {
        proof {
            use_type_invariant(&self);
        }
        self.window
    }
}

/// Host scan behavior.
#[derive(Clone, Copy, Debug, PartialEq, Eq, Structural)]
pub enum ScanMode {
    /// Listen without sending scan requests.
    Passive,
    /// Send scan requests when the peer supports them.
    Active,
}

/// Typed BLE scan request.
#[derive(Clone, Copy, Debug, PartialEq, Eq)]
pub struct ScanConfig {
    timing: ScanTiming,
    mode: ScanMode,
    filter_duplicates: bool,
}

impl ScanConfig {
    /// The fields, in declaration order.
    pub closed spec fn view(&self) -> (ScanTiming, ScanMode, bool) {
        (self.timing, self.mode, self.filter_duplicates)
    }

    /// Construct a request from validated timing and explicit behavior.
    pub fn new(timing: ScanTiming, mode: ScanMode, filter_duplicates: bool) -> (config: Self)
        ensures
            config@ == (timing, mode, filter_duplicates),
    {
        ScanConfig { timing, mode, filter_duplicates }
    }

    /// Selected scan timing.
    pub fn timing(self) -> (timing: ScanTiming)
        ensures
            timing == self@.0,
    {
        self.timing
    }

    /// Active or passive behavior.
    pub fn mode(self) -> (mode: ScanMode)
        ensures
            mode == self@.1,
    {
        self.mode
    }

    /// Whether duplicate reports should be filtered.
    pub fn filter_duplicates(self) -> (filter_duplicates: bool)
        ensures
            filter_duplicates == self@.2,
    {
        self.filter_duplicates
    }
}

/// Bluetooth GATT UUID without controller-specific byte layout.
#[derive(Clone, Copy, Debug, PartialEq, Eq)]
pub enum GattUuid {
    /// Bluetooth 16-bit UUID.
    Uuid16(u16),
    /// Full 128-bit UUID in network byte order.
    Uuid128([u8; 16]),
}

/// Valid GATT attribute permissions.
#[derive(Clone, Copy, Debug, PartialEq, Eq, Structural)]
pub struct GattPermissions {
    bits: u8,
}

impl GattPermissions {
    /// The bitmap.
    pub closed spec fn view(&self) -> u8 {
        self.bits
    }

    /// All bits of `bits` are present.
    pub open spec fn has(self, bits: u8) -> bool {
        self@ & bits == bits
    }

    /// Attribute can be read by the peer.
    pub fn read() -> (flag: Self)
        ensures
            flag@ == 1,
    {
        GattPermissions { bits: 1 }
    }

    /// Attribute can be written by the peer.
    pub fn write() -> (flag: Self)
        ensures
            flag@ == 2,
    {
        GattPermissions { bits: 2 }
    }

    /// Combine independently named permissions.
    pub fn union(self, other: Self) -> (combined: Self)
        ensures
            combined@ == self@ | other@,
    {
        GattPermissions { bits: self.bits | other.bits }
    }

    /// Test whether all requested permissions are present.
    pub fn contains(self, other: Self) -> (present: bool)
        ensures
            present == self.has(other@),
    {
        self.bits & other.bits == other.bits
    }

    /// Return the portable permission bitmap for a chip adapter.
    pub fn __bits(self) -> (bits: u8)
        ensures
            bits == self@,
    {
        self.bits
    }
}

/// Valid GATT characteristic operations.
#[derive(Clone, Copy, Debug, PartialEq, Eq, Structural)]
pub struct GattProperties {
    bits: u8,
}

impl GattProperties {
    /// The bitmap.
    pub closed spec fn view(&self) -> u8 {
        self.bits
    }

    /// All bits of `bits` are present.
    pub open spec fn has(self, bits: u8) -> bool {
        self@ & bits == bits
    }

    /// Peer may read the characteristic value.
    pub fn read() -> (flag: Self)
        ensures
            flag@ == 1,
    {
        GattProperties { bits: 1 }
    }

    /// Peer may write and receive a response.
    pub fn write() -> (flag: Self)
        ensures
            flag@ == 2,
    {
        GattProperties { bits: 2 }
    }

    /// Peer may write without a response.
    pub fn write_without_response() -> (flag: Self)
        ensures
            flag@ == 4,
    {
        GattProperties { bits: 4 }
    }

    /// Server may send notifications.
    pub fn notify() -> (flag: Self)
        ensures
            flag@ == 8,
    {
        GattProperties { bits: 8 }
    }

    /// Server may send acknowledged indications.
    pub fn indicate() -> (flag: Self)
        ensures
            flag@ == 16,
    {
        GattProperties { bits: 16 }
    }

    /// Combine independently named properties.
    pub fn union(self, other: Self) -> (combined: Self)
        ensures
            combined@ == self@ | other@,
    {
        GattProperties { bits: self.bits | other.bits }
    }

    /// Test whether all requested properties are present.
    pub fn contains(self, other: Self) -> (present: bool)
        ensures
            present == self.has(other@),
    {
        self.bits & other.bits == other.bits
    }

    /// Return the portable property bitmap for a chip adapter.
    pub fn __bits(self) -> (bits: u8)
        ensures
            bits == self@,
    {
        self.bits
    }
}

/// What a descriptor definition says.
pub struct DescriptorModel {
    /// Descriptor UUID.
    pub uuid: GattUuid,
    /// Peer permissions.
    pub permissions: GattPermissions,
    /// Initial bytes.
    pub initial_value: Seq<u8>,
    /// Maximum value length.
    pub maximum_len: u16,
}

/// A value of this initial length fits a non-empty maximum.
pub open spec fn value_fits(initial_len: nat, maximum_len: u16) -> bool {
    maximum_len != 0 && initial_len <= maximum_len
}

/// Static GATT descriptor definition.
#[derive(Clone, Copy, Debug, PartialEq, Eq)]
pub struct GattDescriptorDefinition {
    uuid: GattUuid,
    permissions: GattPermissions,
    initial_value: &'static [u8],
    maximum_len: u16,
}

impl GattDescriptorDefinition {
    /// What the definition says.
    pub closed spec fn view(&self) -> DescriptorModel {
        DescriptorModel {
            uuid: self.uuid,
            permissions: self.permissions,
            initial_value: self.initial_value@,
            maximum_len: self.maximum_len,
        }
    }

    #[verifier::type_invariant]
    spec fn wf(self) -> bool {
        value_fits(self.initial_value@.len(), self.maximum_len)
    }

    /// Validate a descriptor's initial and maximum value lengths.
    pub fn try_new(
        uuid: GattUuid,
        permissions: GattPermissions,
        initial_value: &'static [u8],
        maximum_len: u16,
    ) -> (definition: Option<Self>)
        ensures
            definition is Some <==> value_fits(initial_value@.len(), maximum_len),
            definition matches Some(d) ==> d@ == (DescriptorModel {
                uuid,
                permissions,
                initial_value: initial_value@,
                maximum_len,
            }),
    {
        if maximum_len == 0 || initial_value.len() > maximum_len as usize {
            None
        } else {
            Some(GattDescriptorDefinition { uuid, permissions, initial_value, maximum_len })
        }
    }

    /// Descriptor UUID.
    pub fn uuid(self) -> (uuid: GattUuid)
        ensures
            uuid == self@.uuid,
    {
        self.uuid
    }

    /// Peer permissions.
    pub fn permissions(self) -> (permissions: GattPermissions)
        ensures
            permissions == self@.permissions,
    {
        self.permissions
    }

    /// Initial descriptor bytes copied into backend-owned storage.
    pub fn initial_value(self) -> (initial_value: &'static [u8])
        ensures
            initial_value@ == self@.initial_value,
            value_fits(initial_value@.len(), self@.maximum_len),
    {
        proof {
            use_type_invariant(&self);
        }
        self.initial_value
    }

    /// Maximum accepted value length.
    pub fn maximum_len(self) -> (maximum_len: u16)
        ensures
            maximum_len == self@.maximum_len,
            maximum_len != 0,
    {
        proof {
            use_type_invariant(&self);
        }
        self.maximum_len
    }
}

/// One of the descriptors is the client characteristic configuration.
pub open spec fn has_ccc(descriptors: Seq<GattDescriptorDefinition>) -> bool {
    exists|i: int|
        0 <= i < descriptors.len() && (#[trigger] descriptors[i])@.uuid == GattUuid::Uuid16(
            CCC_DESCRIPTOR_UUID,
        )
}

/// What a characteristic definition says.
pub struct CharacteristicModel {
    /// Characteristic UUID.
    pub uuid: GattUuid,
    /// Peer permissions.
    pub permissions: GattPermissions,
    /// Supported operations.
    pub properties: GattProperties,
    /// Initial bytes.
    pub initial_value: Seq<u8>,
    /// Maximum value length.
    pub maximum_len: u16,
    /// Descriptor definitions.
    pub descriptors: Seq<GattDescriptorDefinition>,
}

impl CharacteristicModel {
    /// The server may send the value by itself.
    pub open spec fn publishes(self) -> bool {
        self.properties.has(8) || self.properties.has(16)
    }

    /// The value fits, and a published one can be subscribed to.
    pub open spec fn valid(self) -> bool {
        &&& value_fits(self.initial_value.len(), self.maximum_len)
        &&& self.publishes() ==> has_ccc(self.descriptors)
    }
}

/// Static GATT characteristic definition.
#[derive(Clone, Copy, Debug, PartialEq, Eq)]
pub struct GattCharacteristicDefinition {
    uuid: GattUuid,
    permissions: GattPermissions,
    properties: GattProperties,
    initial_value: &'static [u8],
    maximum_len: u16,
    descriptors: &'static [GattDescriptorDefinition],
}

impl GattCharacteristicDefinition {
    /// What the definition says.
    pub closed spec fn view(&self) -> CharacteristicModel {
        CharacteristicModel {
            uuid: self.uuid,
            permissions: self.permissions,
            properties: self.properties,
            initial_value: self.initial_value@,
            maximum_len: self.maximum_len,
            descriptors: self.descriptors@,
        }
    }

    #[verifier::type_invariant]
    spec fn wf(self) -> bool {
        self@.valid()
    }

    /// Validate value capacity and the notification/indication CCC contract.
    pub fn try_new(
        uuid: GattUuid,
        permissions: GattPermissions,
        properties: GattProperties,
        initial_value: &'static [u8],
        maximum_len: u16,
        descriptors: &'static [GattDescriptorDefinition],
    ) -> (definition: Option<Self>)
        ensures
            ({
                let model = CharacteristicModel {
                    uuid,
                    permissions,
                    properties,
                    initial_value: initial_value@,
                    maximum_len,
                    descriptors: descriptors@,
                };
                &&& definition is Some <==> model.valid()
                &&& definition matches Some(d) ==> d@ == model
            }),
    {
        if maximum_len == 0 || initial_value.len() > maximum_len as usize {
            return None;
        }
        let publishes = properties.contains(GattProperties::notify()) || properties.contains(
            GattProperties::indicate(),
        );
        if publishes && !has_ccc_descriptor(descriptors) {
            return None;
        }
        Some(
            GattCharacteristicDefinition {
                uuid,
                permissions,
                properties,
                initial_value,
                maximum_len,
                descriptors,
            },
        )
    }

    /// Characteristic UUID.
    pub fn uuid(self) -> (uuid: GattUuid)
        ensures
            uuid == self@.uuid,
    {
        self.uuid
    }

    /// Peer permissions.
    pub fn permissions(self) -> (permissions: GattPermissions)
        ensures
            permissions == self@.permissions,
    {
        self.permissions
    }

    /// Supported GATT operations.
    pub fn properties(self) -> (properties: GattProperties)
        ensures
            properties == self@.properties,
    {
        self.properties
    }

    /// Initial value copied into backend-owned storage.
    pub fn initial_value(self) -> (initial_value: &'static [u8])
        ensures
            initial_value@ == self@.initial_value,
            value_fits(initial_value@.len(), self@.maximum_len),
    {
        proof {
            use_type_invariant(&self);
        }
        self.initial_value
    }

    /// Maximum accepted value length.
    pub fn maximum_len(self) -> (maximum_len: u16)
        ensures
            maximum_len == self@.maximum_len,
            maximum_len != 0,
    {
        proof {
            use_type_invariant(&self);
        }
        self.maximum_len
    }

    /// Static descriptor definitions.
    pub fn descriptors(self) -> (descriptors: &'static [GattDescriptorDefinition])
        ensures
            descriptors@ == self@.descriptors,
            self@.publishes() ==> has_ccc(descriptors@),
    {
        proof {
            use_type_invariant(&self);
        }
        self.descriptors
    }
}

fn has_ccc_descriptor(descriptors: &[GattDescriptorDefinition]) -> (found: bool)
    ensures
        found == has_ccc(descriptors@),
{
    let mut index: usize = 0;
    while index < descriptors.len()
        invariant
            index <= descriptors@.len(),
            forall|i: int|
                0 <= i < index ==> (#[trigger] descriptors@[i])@.uuid != GattUuid::Uuid16(
                    CCC_DESCRIPTOR_UUID,
                ),
        decreases descriptors@.len() - index,
    {
        if let GattUuid::Uuid16(uuid) = descriptors[index].uuid {
            if uuid == CCC_DESCRIPTOR_UUID {
                assert(descriptors@[index as int]@.uuid == GattUuid::Uuid16(CCC_DESCRIPTOR_UUID));
                return true;
            }
        }
        index = index + 1;
    }
    false
}

/// Static GATT service definition.
#[derive(Clone, Copy, Debug, PartialEq, Eq)]
pub struct GattServiceDefinition {
    uuid: GattUuid,
    primary: bool,
    characteristics: &'static [GattCharacteristicDefinition],
}

impl GattServiceDefinition {
    /// UUID, whether it is primary, and the characteristics.
    pub closed spec fn view(&self) -> (GattUuid, bool, Seq<GattCharacteristicDefinition>) {
        (self.uuid, self.primary, self.characteristics@)
    }

    #[verifier::type_invariant]
    spec fn wf(self) -> bool {
        self.characteristics@.len() > 0
    }

    /// Require at least one characteristic in a service.
    pub fn try_new(
        uuid: GattUuid,
        primary: bool,
        characteristics: &'static [GattCharacteristicDefinition],
    ) -> (definition: Option<Self>)
        ensures
            definition is Some <==> characteristics@.len() > 0,
            definition matches Some(d) ==> d@ == (uuid, primary, characteristics@),
    {
        if characteristics.len() == 0 {
            None
        } else {
            Some(GattServiceDefinition { uuid, primary, characteristics })
        }
    }

    /// Service UUID.
    pub fn uuid(self) -> (uuid: GattUuid)
        ensures
            uuid == self@.0,
    {
        self.uuid
    }

    /// Whether this is a primary service.
    pub fn is_primary(self) -> (primary: bool)
        ensures
            primary == self@.1,
    {
        self.primary
    }

    /// Static characteristic definitions.
    pub fn characteristics(self) -> (characteristics: &'static [GattCharacteristicDefinition])
        ensures
            characteristics@ == self@.2,
            characteristics@.len() > 0,
    {
        proof {
            use_type_invariant(&self);
        }
        self.characteristics
    }
}

/// Complete caller-owned static GATT server database.
#[derive(Clone, Copy, Debug, PartialEq, Eq)]
pub struct GattServerDefinition {
    app_uuid: GattUuid,
    services: &'static [GattServiceDefinition],
}

impl GattServerDefinition {
    /// Application UUID and the services.
    pub closed spec fn view(&self) -> (GattUuid, Seq<GattServiceDefinition>) {
        (self.app_uuid, self.services@)
    }

    #[verifier::type_invariant]
    spec fn wf(self) -> bool {
        self.services@.len() > 0
    }

    /// Require at least one service in the static database.
    pub fn try_new(app_uuid: GattUuid, services: &'static [GattServiceDefinition]) -> (definition:
        Option<Self>)
        ensures
            definition is Some <==> services@.len() > 0,
            definition matches Some(d) ==> d@ == (app_uuid, services@),
    {
        if services.len() == 0 {
            None
        } else {
            Some(GattServerDefinition { app_uuid, services })
        }
    }

    /// Application UUID used to register the server.
    pub fn app_uuid(self) -> (app_uuid: GattUuid)
        ensures
            app_uuid == self@.0,
    {
        self.app_uuid
    }

    /// Static service definitions.
    pub fn services(self) -> (services: &'static [GattServiceDefinition])
        ensures
            services@ == self@.1,
            services@.len() > 0,
    {
        proof {
            use_type_invariant(&self);
        }
        self.services
    }
}

/// A random address is classified by its two most-significant bits, and refused where
/// the bits are reserved or the random bits of its kind are all zero or all one. An
/// accepted address keeps its bytes.
pub proof fn random_address_is_classified_by_its_top_bits(
    bytes: [u8; 6],
    made: Option<BluetoothAddress>,
    kept: [u8; 6],
    kind: AddressType,
)
    requires
        call_ensures(BluetoothAddress::random, (bytes,), made),
        made matches Some(address) ==> call_ensures(BluetoothAddress::bytes, (address,), kept),
        made matches Some(address) ==> call_ensures(
            BluetoothAddress::address_type,
            (address,),
            kind,
        ),
    ensures
        made is Some ==> kept@ == bytes@,
        made is Some ==> {
            &&& kind is RandomStatic <==> bytes@[5] & 0xc0 == 0xc0
            &&& kind is ResolvablePrivate <==> bytes@[5] & 0xc0 == 0x40
            &&& kind is NonResolvablePrivate <==> bytes@[5] & 0xc0 == 0x00
            &&& !(kind is Public)
        },
        made is None <==> {
            ||| bytes@[5] & 0xc0 == 0x80
            ||| bytes@[5] == 0xc0 && forall|i: int| 0 <= i < 5 ==> #[trigger] bytes@[i] == 0
            ||| forall|i: int| 0 <= i < 6 ==> #[trigger] bytes@[i] == 0xff
            ||| bytes@[5] == 0x40 && bytes@[4] == 0 && bytes@[3] == 0
            ||| bytes@[5] == 0x7f && bytes@[4] == 0xff && bytes@[3] == 0xff
            ||| forall|i: int| 0 <= i < 6 ==> #[trigger] bytes@[i] == 0
        },
{
    let last = bytes@[5];
    lemma_top_bits(last);
    assert(last & 0xc0 == 0x80 <==> last / 64 == 2) by (bit_vector);
    assert(random_bits_are(bytes@, 3, 0, 0) <==> bytes@[3] == 0 && bytes@[4] == 0 && last % 64 == 0);
    assert(random_bits_are(bytes@, 3, 0xff, 63) <==> bytes@[3] == 0xff && bytes@[4] == 0xff && last
        % 64 == 63);
}

/// A static random address is accepted exactly where a random address of that kind
/// is, and a public address unless it is all zero. Both keep their bytes.
pub proof fn static_and_public_addresses_come_back(
    bytes: [u8; 6],
    fixed: Option<BluetoothAddress>,
    any: Option<BluetoothAddress>,
    public: Option<BluetoothAddress>,
    kept: [u8; 6],
    kind: AddressType,
)
    requires
        call_ensures(BluetoothAddress::random_static, (bytes,), fixed),
        call_ensures(BluetoothAddress::random, (bytes,), any),
        call_ensures(BluetoothAddress::public, (bytes,), public),
    ensures
        fixed is Some <==> any is Some && bytes@[5] & 0xc0 == 0xc0,
        fixed matches Some(address) && call_ensures(
            BluetoothAddress::bytes,
            (address,),
            kept,
        ) ==> kept@ == bytes@,
        fixed matches Some(address) && call_ensures(
            BluetoothAddress::address_type,
            (address,),
            kind,
        ) ==> kind is RandomStatic,
        public is None <==> forall|i: int| 0 <= i < 6 ==> #[trigger] bytes@[i] == 0,
        public matches Some(address) && call_ensures(
            BluetoothAddress::bytes,
            (address,),
            kept,
        ) ==> kept@ == bytes@,
        public matches Some(address) && call_ensures(
            BluetoothAddress::address_type,
            (address,),
            kind,
        ) ==> kind is Public,
{
    lemma_top_bits(bytes@[5]);
}

/// A pairing policy keeps what it was made of.
pub proof fn security_config_keeps_its_parts(
    bonding: Bonding,
    io_capability: IoCapability,
    requirement: SecurityRequirement,
    made: SecurityConfig,
    kept_bonding: Bonding,
    kept_io_capability: IoCapability,
    kept_requirement: SecurityRequirement,
)
    requires
        call_ensures(SecurityConfig::new, (bonding, io_capability, requirement,), made),
        call_ensures(SecurityConfig::bonding, (made,), kept_bonding),
        call_ensures(SecurityConfig::io_capability, (made,), kept_io_capability),
        call_ensures(SecurityConfig::requirement, (made,), kept_requirement),
    ensures
        kept_bonding == bonding,
        kept_io_capability == io_capability,
        kept_requirement == requirement,
{
}

/// An advertising interval comes back in the same units, within the controller range.
pub proof fn advertising_interval_comes_back(
    units: u16,
    made: Option<AdvertisingInterval>,
    kept: u16,
)
    requires
        call_ensures(AdvertisingInterval::try_from_units, (units,), made),
        made matches Some(interval) ==> call_ensures(
            AdvertisingInterval::as_units,
            (interval,),
            kept,
        ),
    ensures
        made is Some <==> 0x20 <= units && units <= 0x4000,
        made is Some ==> kept == units,
{
}

/// Advertising bounds come back in their order, and exactly ordered bounds are
/// accepted.
pub proof fn advertising_bounds_come_back(
    minimum: AdvertisingInterval,
    maximum: AdvertisingInterval,
    minimum_units: u16,
    maximum_units: u16,
    made: Option<AdvertisingTiming>,
    kept_minimum: AdvertisingInterval,
    kept_maximum: AdvertisingInterval,
)
    requires
        call_ensures(AdvertisingInterval::as_units, (minimum,), minimum_units),
        call_ensures(AdvertisingInterval::as_units, (maximum,), maximum_units),
        call_ensures(AdvertisingTiming::try_new, (minimum, maximum,), made),
        made matches Some(timing) ==> call_ensures(
            AdvertisingTiming::minimum,
            (timing,),
            kept_minimum,
        ),
        made matches Some(timing) ==> call_ensures(
            AdvertisingTiming::maximum,
            (timing,),
            kept_maximum,
        ),
    ensures
        made is Some <==> minimum_units <= maximum_units,
        made is Some ==> kept_minimum == minimum && kept_maximum == maximum,
{
}

/// A channel selection comes back bit for bit: some of the three channels, or all of
/// them.
pub proof fn advertising_channels_come_back(
    bits: u8,
    made: Option<AdvertisingChannels>,
    kept: u8,
    all: AdvertisingChannels,
    every: u8,
)
    requires
        call_ensures(AdvertisingChannels::try_from_bits, (bits,), made),
        made matches Some(channels) ==> call_ensures(AdvertisingChannels::bits, (channels,), kept),
        call_ensures(AdvertisingChannels::all, (), all),
        call_ensures(AdvertisingChannels::bits, (all,), every),
    ensures
        made is Some <==> bits != 0 && bits < 8,
        made is Some ==> kept == bits,
        every == 7,
{
}

/// A payload comes back byte for byte, and exactly the payloads of up to 31 bytes are
/// accepted.
pub proof fn advertising_payload_comes_back(
    value: &[u8],
    made: Option<AdvertisingPayload>,
    kept: &[u8],
)
    requires
        call_ensures(AdvertisingPayload::try_from_slice, (value,), made),
        made matches Some(payload) ==> call_ensures(
            AdvertisingPayload::as_bytes,
            (&payload,),
            kept,
        ),
    ensures
        made is None <==> value@.len() > 31,
        made is Some ==> kept@ == value@,
{
}

/// An advertising request keeps what it was made of.
pub proof fn advertising_config_keeps_its_parts(
    timing: AdvertisingTiming,
    channels: AdvertisingChannels,
    payload: AdvertisingPayload,
    made: AdvertisingConfig,
    kept_timing: AdvertisingTiming,
    kept_channels: AdvertisingChannels,
    kept_payload: &AdvertisingPayload,
)
    requires
        call_ensures(AdvertisingConfig::new, (timing, channels, payload,), made),
        call_ensures(AdvertisingConfig::timing, (made,), kept_timing),
        call_ensures(AdvertisingConfig::channels, (made,), kept_channels),
        call_ensures(AdvertisingConfig::payload, (&made,), kept_payload),
    ensures
        kept_timing == timing,
        kept_channels == channels,
        *kept_payload == payload,
{
}

/// A scan interval comes back in the same units, within the controller range.
pub proof fn scan_interval_comes_back(
    units: u16,
    made: Option<ScanInterval>,
    kept: u16,
)
    requires
        call_ensures(ScanInterval::try_from_units, (units,), made),
        made matches Some(interval) ==> call_ensures(ScanInterval::as_units, (interval,), kept),
    ensures
        made is Some <==> 4 <= units && units <= 0x4000,
        made is Some ==> kept == units,
{
}

/// A scan interval and its window come back as given, and exactly a window within the
/// interval is accepted.
pub proof fn scan_window_comes_back(
    interval: ScanInterval,
    window: ScanInterval,
    interval_units: u16,
    window_units: u16,
    made: Option<ScanTiming>,
    kept_interval: ScanInterval,
    kept_window: ScanInterval,
)
    requires
        call_ensures(ScanInterval::as_units, (interval,), interval_units),
        call_ensures(ScanInterval::as_units, (window,), window_units),
        call_ensures(ScanTiming::try_new, (interval, window,), made),
        made matches Some(timing) ==> call_ensures(ScanTiming::interval, (timing,), kept_interval),
        made matches Some(timing) ==> call_ensures(ScanTiming::window, (timing,), kept_window),
    ensures
        made is Some <==> window_units <= interval_units,
        made is Some ==> kept_interval == interval && kept_window == window,
{
}

/// A scan request keeps what it was made of.
pub proof fn scan_config_keeps_its_parts(
    timing: ScanTiming,
    mode: ScanMode,
    filter_duplicates: bool,
    made: ScanConfig,
    kept_timing: ScanTiming,
    kept_mode: ScanMode,
    kept_filter_duplicates: bool,
)
    requires
        call_ensures(ScanConfig::new, (timing, mode, filter_duplicates,), made),
        call_ensures(ScanConfig::timing, (made,), kept_timing),
        call_ensures(ScanConfig::mode, (made,), kept_mode),
        call_ensures(ScanConfig::filter_duplicates, (made,), kept_filter_duplicates),
    ensures
        kept_timing == timing,
        kept_mode == mode,
        kept_filter_duplicates == filter_duplicates,
{
}

/// Combined permissions are exactly those of either side: a named one is present in
/// the combination when it is present in one of them.
pub proof fn combined_permissions_are_those_of_either_side(
    a: GattPermissions,
    b: GattPermissions,
    flag: GattPermissions,
    both: GattPermissions,
    in_a: bool,
    in_b: bool,
    in_both: bool,
    bits: u8,
)
    requires
        call_ensures(GattPermissions::union, (a, b,), both),
        call_ensures(GattPermissions::contains, (a, flag,), in_a),
        call_ensures(GattPermissions::contains, (b, flag,), in_b),
        call_ensures(GattPermissions::contains, (both, flag,), in_both),
        call_ensures(GattPermissions::__bits, (flag,), bits),
        bits == 1 || bits == 2 || bits == 4 || bits == 8 || bits == 16,
    ensures
        in_both <==> in_a || in_b,
{
    let left = a@;
    let right = b@;
    assert((left | right) & bits == bits <==> left & bits == bits || right & bits == bits)
        by (bit_vector)
        requires
            bits == 1 || bits == 2 || bits == 4 || bits == 8 || bits == 16,
    ;
}

/// Combined properties are exactly those of either side: a named one is present in
/// the combination when it is present in one of them.
pub proof fn combined_properties_are_those_of_either_side(
    a: GattProperties,
    b: GattProperties,
    flag: GattProperties,
    both: GattProperties,
    in_a: bool,
    in_b: bool,
    in_both: bool,
    bits: u8,
)
    requires
        call_ensures(GattProperties::union, (a, b,), both),
        call_ensures(GattProperties::contains, (a, flag,), in_a),
        call_ensures(GattProperties::contains, (b, flag,), in_b),
        call_ensures(GattProperties::contains, (both, flag,), in_both),
        call_ensures(GattProperties::__bits, (flag,), bits),
        bits == 1 || bits == 2 || bits == 4 || bits == 8 || bits == 16,
    ensures
        in_both <==> in_a || in_b,
{
    let left = a@;
    let right = b@;
    assert((left | right) & bits == bits <==> left & bits == bits || right & bits == bits)
        by (bit_vector)
        requires
            bits == 1 || bits == 2 || bits == 4 || bits == 8 || bits == 16,
    ;
}

/// Each permission and each property has a bit of its own in its portable bitmap.
pub proof fn gatt_flags_have_their_bits(
    permission: GattPermissions,
    property: GattProperties,
    p: u8,
    q: u8,
)
    requires
        call_ensures(GattPermissions::__bits, (permission,), p),
        call_ensures(GattProperties::__bits, (property,), q),
    ensures
        call_ensures(GattPermissions::read, (), permission) ==> p == 1,
        call_ensures(GattPermissions::write, (), permission) ==> p == 2,
        call_ensures(GattProperties::read, (), property) ==> q == 1,
        call_ensures(GattProperties::write, (), property) ==> q == 2,
        call_ensures(GattProperties::write_without_response, (), property) ==> q == 4,
        call_ensures(GattProperties::notify, (), property) ==> q == 8,
        call_ensures(GattProperties::indicate, (), property) ==> q == 16,
{
}

/// A descriptor keeps what it was made of, and exactly an initial value within a non-
/// empty maximum is accepted.
pub proof fn descriptor_keeps_its_parts(
    uuid: GattUuid,
    permissions: GattPermissions,
    initial_value: &'static [u8],
    maximum_len: u16,
    made: Option<GattDescriptorDefinition>,
    kept_uuid: GattUuid,
    kept_permissions: GattPermissions,
    kept_initial_value: &'static [u8],
    kept_maximum_len: u16,
)
    requires
        call_ensures(
            GattDescriptorDefinition::try_new,
            (uuid, permissions, initial_value, maximum_len,),
            made,
        ),
        made matches Some(definition) ==> call_ensures(
            GattDescriptorDefinition::uuid,
            (definition,),
            kept_uuid,
        ),
        made matches Some(definition) ==> call_ensures(
            GattDescriptorDefinition::permissions,
            (definition,),
            kept_permissions,
        ),
        made matches Some(definition) ==> call_ensures(
            GattDescriptorDefinition::initial_value,
            (definition,),
            kept_initial_value,
        ),
        made matches Some(definition) ==> call_ensures(
            GattDescriptorDefinition::maximum_len,
            (definition,),
            kept_maximum_len,
        ),
    ensures
        made is Some <==> maximum_len > 0 && initial_value@.len() <= maximum_len,
        made is Some ==> {
            &&& kept_uuid == uuid
            &&& kept_permissions == permissions
            &&& kept_initial_value@ == initial_value@
            &&& kept_maximum_len == maximum_len
        },
{
}

/// A characteristic keeps what it was made of. Exactly an initial value within a non-
/// empty maximum is accepted, and one that notifies or indicates only with a client
/// configuration among its descriptors.
pub proof fn characteristic_keeps_its_parts(
    uuid: GattUuid,
    permissions: GattPermissions,
    properties: GattProperties,
    initial_value: &'static [u8],
    maximum_len: u16,
    descriptors: &'static [GattDescriptorDefinition],
    made: Option<GattCharacteristicDefinition>,
    kept_uuid: GattUuid,
    kept_permissions: GattPermissions,
    kept_properties: GattProperties,
    kept_initial_value: &'static [u8],
    kept_maximum_len: u16,
    kept_descriptors: &'static [GattDescriptorDefinition],
)
    requires
        call_ensures(
            GattCharacteristicDefinition::try_new,
            (uuid, permissions, properties, initial_value, maximum_len, descriptors,),
            made,
        ),
        made matches Some(definition) ==> call_ensures(
            GattCharacteristicDefinition::uuid,
            (definition,),
            kept_uuid,
        ),
        made matches Some(definition) ==> call_ensures(
            GattCharacteristicDefinition::permissions,
            (definition,),
            kept_permissions,
        ),
        made matches Some(definition) ==> call_ensures(
            GattCharacteristicDefinition::properties,
            (definition,),
            kept_properties,
        ),
        made matches Some(definition) ==> call_ensures(
            GattCharacteristicDefinition::initial_value,
            (definition,),
            kept_initial_value,
        ),
        made matches Some(definition) ==> call_ensures(
            GattCharacteristicDefinition::maximum_len,
            (definition,),
            kept_maximum_len,
        ),
        made matches Some(definition) ==> call_ensures(
            GattCharacteristicDefinition::descriptors,
            (definition,),
            kept_descriptors,
        ),
    ensures
        made is Some <==> {
            &&& maximum_len > 0
            &&& initial_value@.len() <= maximum_len
            &&& properties@ & 8 == 8 || properties@ & 16 == 16 ==> exists|i: int|
                0 <= i < descriptors@.len() && (#[trigger] descriptors@[i])@.uuid
                    == GattUuid::Uuid16(0x2902)
        },
        made is Some ==> {
            &&& kept_uuid == uuid
            &&& kept_permissions == permissions
            &&& kept_properties == properties
            &&& kept_initial_value@ == initial_value@
            &&& kept_maximum_len == maximum_len
            &&& kept_descriptors@ == descriptors@
        },
{
}

/// A service keeps what it was made of, and only a service without characteristics is
/// refused.
pub proof fn service_keeps_its_parts(
    uuid: GattUuid,
    primary: bool,
    characteristics: &'static [GattCharacteristicDefinition],
    made: Option<GattServiceDefinition>,
    kept_uuid: GattUuid,
    kept_primary: bool,
    kept_characteristics: &'static [GattCharacteristicDefinition],
)
    requires
        call_ensures(GattServiceDefinition::try_new, (uuid, primary, characteristics,), made),
        made matches Some(definition) ==> call_ensures(
            GattServiceDefinition::uuid,
            (definition,),
            kept_uuid,
        ),
        made matches Some(definition) ==> call_ensures(
            GattServiceDefinition::is_primary,
            (definition,),
            kept_primary,
        ),
        made matches Some(definition) ==> call_ensures(
            GattServiceDefinition::characteristics,
            (definition,),
            kept_characteristics,
        ),
    ensures
        made is Some <==> characteristics@.len() > 0,
        made is Some ==> {
            &&& kept_uuid == uuid
            &&& kept_primary == primary
            &&& kept_characteristics@ == characteristics@
        },
{
}

/// A server keeps what it was made of, and only a server without services is refused.
pub proof fn server_keeps_its_parts(
    app_uuid: GattUuid,
    services: &'static [GattServiceDefinition],
    made: Option<GattServerDefinition>,
    kept_app_uuid: GattUuid,
    kept_services: &'static [GattServiceDefinition],
)
    requires
        call_ensures(GattServerDefinition::try_new, (app_uuid, services,), made),
        made matches Some(definition) ==> call_ensures(
            GattServerDefinition::app_uuid,
            (definition,),
            kept_app_uuid,
        ),
        made matches Some(definition) ==> call_ensures(
            GattServerDefinition::services,
            (definition,),
            kept_services,
        ),
    ensures
        made is Some <==> services@.len() > 0,
        made is Some ==> {
            &&& kept_app_uuid == app_uuid
            &&& kept_services@ == services@
        },
{
}


} // verus!
