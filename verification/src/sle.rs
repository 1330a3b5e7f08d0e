//! Chip-neutral SLE announce and seek configuration contracts.

use vstd::prelude::*;

verus! {

/// Longest announce or seek-response payload, in bytes.
pub const ANNOUNCE_DATA_CAPACITY: usize = 64;

/// Address kind carried by one SLE operation.
#[derive(Clone, Copy, Debug, PartialEq, Eq, Structural)]
pub enum AddressType {
    /// Public device address.
    Public,
    /// Random device address.
    Random,
}

/// Validated non-zero SLE device address.
#[derive(Clone, Copy, Debug, PartialEq, Eq)]
pub struct SleAddress {
    bytes: [u8; 6],
    kind: AddressType,
}

impl SleAddress {
    /// The bytes and the kind.
    pub closed spec fn view(&self) -> (Seq<u8>, AddressType) {
        (self.bytes@, self.kind)
    }

    #[verifier::type_invariant]
    spec fn wf(self) -> bool {
        !crate::wifi::all_zero(self.bytes@)
    }

    /// Validate and copy a device address.
    pub fn try_new(bytes: [u8; 6], kind: AddressType) -> (address: Option<Self>)
        ensures
            address is Some <==> !crate::wifi::all_zero(bytes@),
            address matches Some(a) ==> a@ == (bytes@, kind),
    {
        let zero = bytes[0] == 0 && bytes[1] == 0 && bytes[2] == 0 && bytes[3] == 0 && bytes[4]
            == 0 && bytes[5] == 0;
        assert(zero ==> crate::wifi::all_zero(bytes@));
        assert(!zero ==> bytes@[0] != 0 || bytes@[1] != 0 || bytes@[2] != 0 || bytes@[3] != 0
            || bytes@[4] != 0 || bytes@[5] != 0);
        if zero {
            None
        } else {
            Some(SleAddress { bytes, kind })
        }
    }

    /// Return the controller byte order.
    pub fn bytes(self) -> (bytes: [u8; 6])
        ensures
            bytes@ == self@.0,
            !crate::wifi::all_zero(bytes@),
    {
        proof {
            use_type_invariant(&self);
        }
        self.bytes
    }

    /// Return the validated address kind.
    pub fn address_type(self) -> (kind: AddressType)
        ensures
            kind == self@.1,
    {
        self.kind
    }
}

/// SLE announce interval in 125 us controller units.
#[derive(Clone, Copy, Debug, PartialEq, Eq, PartialOrd, Ord, Structural)]
pub struct AnnounceInterval {
    units: u32,
}

impl AnnounceInterval {
    /// The controller units.
    pub closed spec fn view(&self) -> u32 {
        self.units
    }

    #[verifier::type_invariant]
    spec fn wf(self) -> bool {
        0x20 <= self.units <= 0x00ff_ffff
    }

    /// Validate the public SLE API range without truncating its 24-bit value.
    pub fn try_from_units(units: u32) -> (interval: Option<Self>)
        ensures
            interval is Some <==> 0x20 <= units <= 0x00ff_ffff,
            interval matches Some(i) ==> i@ == units,
    {
        if units < 0x20 || units > 0x00ff_ffff {
            None
        } else {
            Some(AnnounceInterval { units })
        }
    }

    /// Return controller units.
    pub fn as_units(self) -> (units: u32)
        ensures
            units == self@,
            0x20 <= units <= 0x00ff_ffff,
    {
        proof {
            use_type_invariant(&self);
        }
        self.units
    }
}

/// Ordered announce timing range.
#[derive(Clone, Copy, Debug, PartialEq, Eq, Structural)]
pub struct AnnounceTiming {
    minimum: AnnounceInterval,
    maximum: AnnounceInterval,
}

impl AnnounceTiming {
    /// The minimum and the maximum.
    pub closed spec fn view(&self) -> (AnnounceInterval, AnnounceInterval) {
        (self.minimum, self.maximum)
    }

    #[verifier::type_invariant]
    spec fn wf(self) -> bool {
        self.minimum@ <= self.maximum@
    }

    /// Validate that the minimum does not exceed the maximum.
    pub fn try_new(minimum: AnnounceInterval, maximum: AnnounceInterval) -> (timing: Option<Self>)
        ensures
            timing is Some <==> minimum@ <= maximum@,
            timing matches Some(t) ==> t@ == (minimum, maximum),
    {
        if minimum.units > maximum.units {
            None
        } else {
            Some(AnnounceTiming { minimum, maximum })
        }
    }

    /// Smallest interval.
    pub fn minimum(self) -> (minimum: AnnounceInterval)
        ensures
            minimum == self@.0,
            self@.0@ <= self@.1@,
    {
        proof {
            use_type_invariant(&self);
        }
        self.minimum
    }

    /// Largest interval.
    pub fn maximum(self) -> (maximum: AnnounceInterval)
        ensures
            maximum == self@.1,
            self@.0@ <= self@.1@,
    {
        proof {
            use_type_invariant(&self);
        }
        self.maximum
    }
}

/// Non-empty subset of the three SLE announce channels.
#[derive(Clone, Copy, Debug, PartialEq, Eq, Structural)]
pub struct AnnounceChannels {
    bits: u8,
}

impl AnnounceChannels {
    /// The channel bitmap.
    pub closed spec fn view(&self) -> u8 {
        self.bits
    }

    #[verifier::type_invariant]
    spec fn wf(self) -> bool {
        1 <= self.bits <= 7
    }

    /// All primary announce channels.
    pub fn all() -> (channels: Self)
        ensures
            channels@ == 7,
    {
        AnnounceChannels { bits: 0x07 }
    }

    /// Validate a three-bit channel map.
    pub fn try_from_bits(bits: u8) -> (channels: Option<Self>)
        ensures
            channels is Some <==> 1 <= bits <= 7,
            channels matches Some(c) ==> c@ == bits,
    {
        assert(bits & !0x07u8 != 0 <==> bits > 7) by (bit_vector);
        if bits == 0 || bits & !0x07 != 0 {
            None
        } else {
            Some(AnnounceChannels { bits })
        }
    }

    /// Return the controller bitmap.
    pub fn bits(self) -> (bits: u8)
        ensures
            bits == self@,
            1 <= bits <= 7,
    {
        proof {
            use_type_invariant(&self);
        }
        self.bits
    }
}

/// Owned, bounded announce or seek-response payload.
///
/// Storage past the length is zero, so the bytes alone identify the value.
#[derive(Clone, Copy, Debug, PartialEq, Eq)]
pub struct AnnouncePayload {
    bytes: [u8; ANNOUNCE_DATA_CAPACITY],
    len: u8,
}

impl AnnouncePayload {
    /// The exact payload bytes.
    pub closed spec fn view(&self) -> Seq<u8> {
        self.bytes@.take(self.len as int)
    }

    /// The length fits the storage and the unused tail is zero.
    #[verifier::type_invariant]
    pub closed spec fn wf(self) -> bool {
        &&& self.len <= ANNOUNCE_DATA_CAPACITY
        &&& forall|i: int| self.len <= i < ANNOUNCE_DATA_CAPACITY ==> #[trigger] self.bytes@[i] == 0
    }

    /// Copy at most 64 bytes into fixed-capacity storage.
    pub fn try_from_slice(value: &[u8]) -> (payload: Option<Self>)
        ensures
            payload is Some <==> value@.len() <= 64,
            payload matches Some(p) ==> p@ == value@,
    {
        if value.len() > ANNOUNCE_DATA_CAPACITY {
            return None;
        }
        let mut bytes: [u8; ANNOUNCE_DATA_CAPACITY] = [0; ANNOUNCE_DATA_CAPACITY];
        let mut i: usize = 0;
        while i < value.len()
            invariant
                i <= value@.len() <= ANNOUNCE_DATA_CAPACITY,
                bytes@.len() == ANNOUNCE_DATA_CAPACITY,
                forall|j: int| 0 <= j < i ==> #[trigger] bytes@[j] == value@[j],
                forall|j: int| i <= j < ANNOUNCE_DATA_CAPACITY ==> #[trigger] bytes@[j] == 0,
            decreases value@.len() - i,
        {
            bytes[i] = value[i];
            i = i + 1;
        }
        let payload = AnnouncePayload { bytes, len: value.len() as u8 };
        assert(payload@ =~= value@);
        Some(payload)
    }

    /// Exact payload bytes.
    pub fn as_bytes(&self) -> (bytes: &[u8])
        ensures
            bytes@ == self@,
            bytes@.len() <= 64,
    {
        proof {
            use_type_invariant(self);
        }
        &self.bytes[0..self.len as usize]
    }
}

/// A valid payload is exactly its bytes.
pub proof fn announce_payload_is_its_bytes(a: AnnouncePayload, b: AnnouncePayload)
    requires
        a.wf(),
        b.wf(),
        a@ == b@,
    ensures
        a == b,
{
    assert(a.bytes@.len() == ANNOUNCE_DATA_CAPACITY && b.bytes@.len() == ANNOUNCE_DATA_CAPACITY);
    assert(a@.len() == a.len && b@.len() == b.len);
    assert forall|i: int| 0 <= i < ANNOUNCE_DATA_CAPACITY implies a.bytes@[i] == b.bytes@[i] by {
        if i < a.len {
            assert(a@[i] == a.bytes@[i] && b@[i] == b.bytes@[i]);
        }
    }
    assert(a.bytes@ =~= b.bytes@);
    assert(a.bytes == b.bytes);
}

/// Typed SLE announce request.
#[derive(Clone, Copy, Debug, PartialEq, Eq)]
pub struct AnnounceConfig {
    timing: AnnounceTiming,
    channels: AnnounceChannels,
    data: AnnouncePayload,
    seek_response: AnnouncePayload,
}

impl AnnounceConfig {
    /// The fields, in declaration order.
    pub closed spec fn view(&self) -> (AnnounceTiming, AnnounceChannels, AnnouncePayload, AnnouncePayload) {
        (self.timing, self.channels, self.data, self.seek_response)
    }

    /// Construct a request from independently validated fields.
    pub fn new(timing: AnnounceTiming, channels: AnnounceChannels, data: AnnouncePayload, seek_response: AnnouncePayload) -> (config: Self)
        ensures
            config@ == (timing, channels, data, seek_response),
    {
        AnnounceConfig { timing, channels, data, seek_response }
    }

    /// Selected timing range.
    pub fn timing(self) -> (timing: AnnounceTiming)
        ensures
            timing == self@.0,
    {
        self.timing
    }

    /// Selected channel map.
    pub fn channels(self) -> (channels: AnnounceChannels)
        ensures
            channels == self@.1,
    {
        self.channels
    }

    /// Borrow announce data.
    pub fn data(&self) -> (data: &AnnouncePayload)
        ensures
            *data == self@.2,
    {
        &self.data
    }

    /// Borrow seek-response data.
    pub fn seek_response(&self) -> (seek_response: &AnnouncePayload)
        ensures
            *seek_response == self@.3,
    {
        &self.seek_response
    }
}

/// SLE seek interval or window in 125 us controller units.
#[derive(Clone, Copy, Debug, PartialEq, Eq, PartialOrd, Ord, Structural)]
pub struct SeekInterval {
    units: u16,
}

impl SeekInterval {
    /// The controller units.
    pub closed spec fn view(&self) -> u16 {
        self.units
    }

    #[verifier::type_invariant]
    spec fn wf(self) -> bool {
        0x14 <= self.units
    }

    /// Validate the public SLE seek timing range.
    pub fn try_from_units(units: u16) -> (interval: Option<Self>)
        ensures
            interval is Some <==> 0x14 <= units,
            interval matches Some(i) ==> i@ == units,
    {
        if units < 0x14 {
            None
        } else {
            Some(SeekInterval { units })
        }
    }

    /// Return controller units.
    pub fn as_units(self) -> (units: u16)
        ensures
            units == self@,
            0x14 <= units,
    {
        proof {
            use_type_invariant(&self);
        }
        self.units
    }
}

/// Seek interval and window with `window <= interval` guaranteed.
#[derive(Clone, Copy, Debug, PartialEq, Eq, Structural)]
pub struct SeekTiming {
    interval: SeekInterval,
    window: SeekInterval,
}

impl SeekTiming {
    /// The interval and the window.
    pub closed spec fn view(&self) -> (SeekInterval, SeekInterval) {
        (self.interval, self.window)
    }

    #[verifier::type_invariant]
    spec fn wf(self) -> bool {
        self.window@ <= self.interval@
    }

    /// Validate one seek timing pair.
    pub fn try_new(interval: SeekInterval, window: SeekInterval) -> (timing: Option<Self>)
        ensures
            timing is Some <==> window@ <= interval@,
            timing matches Some(t) ==> t@ == (interval, window),
    {
        if window.units > interval.units {
            None
        } else {
            Some(SeekTiming { interval, window })
        }
    }

    /// Repetition interval.
    pub fn interval(self) -> (interval: SeekInterval)
        ensures
            interval == self@.0,
            self@.1@ <= self@.0@,
    {
        proof {
            use_type_invariant(&self);
        }
        self.interval
    }

    /// Active seek window.
    pub fn window(self) -> (window: SeekInterval)
        ensures
            window == self@.1,
            self@.1@ <= self@.0@,
    {
        proof {
            use_type_invariant(&self);
        }
        self.window
    }
}

/// Typed SLE seek request.
#[derive(Clone, Copy, Debug, PartialEq, Eq)]
pub struct SeekConfig {
    timing: SeekTiming,
    filter_duplicates: bool,
}

impl SeekConfig {
    /// The fields, in declaration order.
    pub closed spec fn view(&self) -> (SeekTiming, bool) {
        (self.timing, self.filter_duplicates)
    }

    /// Construct a seek request.
    pub fn new(timing: SeekTiming, filter_duplicates: bool) -> (config: Self)
        ensures
            config@ == (timing, filter_duplicates),
    {
        SeekConfig { timing, filter_duplicates }
    }

    /// Selected seek timing.
    pub fn timing(self) -> (timing: SeekTiming)
        ensures
            timing == self@.0,
    {
        self.timing
    }

    /// Whether duplicate reports should be filtered.
    pub fn filter_duplicates(self) -> (filter_duplicates: bool)
        ensures
            filter_duplicates == self@.1,
    {
        self.filter_duplicates
    }
}

/// An address comes back byte for byte with the kind it was given; only the all-zero
/// one is refused.
pub proof fn address_comes_back(
    bytes: [u8; 6],
    kind: AddressType,
    made: Option<SleAddress>,
    kept: [u8; 6],
    kept_kind: AddressType,
)
    requires
        call_ensures(SleAddress::try_new, (bytes, kind,), made),
        made matches Some(address) ==> call_ensures(SleAddress::bytes, (address,), kept),
        made matches Some(address) ==> call_ensures(
            SleAddress::address_type,
            (address,),
            kept_kind,
        ),
    ensures
        made is None <==> forall|i: int| 0 <= i < 6 ==> #[trigger] bytes@[i] == 0,
        made is Some ==> kept@ == bytes@ && kept_kind == kind,
{
}

/// An announce interval comes back in the same units, within the controller range.
pub proof fn announce_interval_comes_back(
    units: u32,
    made: Option<AnnounceInterval>,
    kept: u32,
)
    requires
        call_ensures(AnnounceInterval::try_from_units, (units,), made),
        made matches Some(interval) ==> call_ensures(AnnounceInterval::as_units, (interval,), kept),
    ensures
        made is Some <==> 0x20 <= units && units < 0x100_0000,
        made is Some ==> kept == units,
{
}

/// Announce bounds come back in their order, and exactly ordered bounds are accepted.
pub proof fn announce_bounds_come_back(
    minimum: AnnounceInterval,
    maximum: AnnounceInterval,
    minimum_units: u32,
    maximum_units: u32,
    made: Option<AnnounceTiming>,
    kept_minimum: AnnounceInterval,
    kept_maximum: AnnounceInterval,
)
    requires
        call_ensures(AnnounceInterval::as_units, (minimum,), minimum_units),
        call_ensures(AnnounceInterval::as_units, (maximum,), maximum_units),
        call_ensures(AnnounceTiming::try_new, (minimum, maximum,), made),
        made matches Some(timing) ==> call_ensures(
            AnnounceTiming::minimum,
            (timing,),
            kept_minimum,
        ),
        made matches Some(timing) ==> call_ensures(
            AnnounceTiming::maximum,
            (timing,),
            kept_maximum,
        ),
    ensures
        made is Some <==> minimum_units <= maximum_units,
        made is Some ==> kept_minimum == minimum && kept_maximum == maximum,
{
}

/// A channel selection comes back bit for bit: some of the three channels, or all of
/// them.
pub proof fn announce_channels_come_back(
    bits: u8,
    made: Option<AnnounceChannels>,
    kept: u8,
    all: AnnounceChannels,
    every: u8,
)
    requires
        call_ensures(AnnounceChannels::try_from_bits, (bits,), made),
        made matches Some(channels) ==> call_ensures(AnnounceChannels::bits, (channels,), kept),
        call_ensures(AnnounceChannels::all, (), all),
        call_ensures(AnnounceChannels::bits, (all,), every),
    ensures
        made is Some <==> bits != 0 && bits < 8,
        made is Some ==> kept == bits,
        every == 7,
{
}

/// A payload comes back byte for byte, and exactly the payloads of up to 64 bytes are
/// accepted.
pub proof fn announce_payload_comes_back(
    value: &[u8],
    made: Option<AnnouncePayload>,
    kept: &[u8],
)
    requires
        call_ensures(AnnouncePayload::try_from_slice, (value,), made),
        made matches Some(payload) ==> call_ensures(AnnouncePayload::as_bytes, (&payload,), kept),
    ensures
        made is None <==> value@.len() > 64,
        made is Some ==> kept@ == value@,
{
}

/// An announce request keeps what it was made of; its data and its seek response are
/// not exchanged.
pub proof fn announce_config_keeps_its_parts(
    timing: AnnounceTiming,
    channels: AnnounceChannels,
    data: AnnouncePayload,
    seek_response: AnnouncePayload,
    made: AnnounceConfig,
    kept_timing: AnnounceTiming,
    kept_channels: AnnounceChannels,
    kept_data: &AnnouncePayload,
    kept_seek_response: &AnnouncePayload,
)
    requires
        call_ensures(AnnounceConfig::new, (timing, channels, data, seek_response,), made),
        call_ensures(AnnounceConfig::timing, (made,), kept_timing),
        call_ensures(AnnounceConfig::channels, (made,), kept_channels),
        call_ensures(AnnounceConfig::data, (&made,), kept_data),
        call_ensures(AnnounceConfig::seek_response, (&made,), kept_seek_response),
    ensures
        kept_timing == timing,
        kept_channels == channels,
        *kept_data == data,
        *kept_seek_response == seek_response,
{
}

/// A seek interval comes back in the same units, from the controller minimum on.
pub proof fn seek_interval_comes_back(
    units: u16,
    made: Option<SeekInterval>,
    kept: u16,
)
    requires
        call_ensures(SeekInterval::try_from_units, (units,), made),
        made matches Some(interval) ==> call_ensures(SeekInterval::as_units, (interval,), kept),
    ensures
        made is Some <==> 20 <= units,
        made is Some ==> kept == units,
{
}

/// A seek interval and its window come back as given, and exactly a window within the
/// interval is accepted.
pub proof fn seek_window_comes_back(
    interval: SeekInterval,
    window: SeekInterval,
    interval_units: u16,
    window_units: u16,
    made: Option<SeekTiming>,
    kept_interval: SeekInterval,
    kept_window: SeekInterval,
)
    requires
        call_ensures(SeekInterval::as_units, (interval,), interval_units),
        call_ensures(SeekInterval::as_units, (window,), window_units),
        call_ensures(SeekTiming::try_new, (interval, window,), made),
        made matches Some(timing) ==> call_ensures(SeekTiming::interval, (timing,), kept_interval),
        made matches Some(timing) ==> call_ensures(SeekTiming::window, (timing,), kept_window),
    ensures
        made is Some <==> window_units <= interval_units,
        made is Some ==> kept_interval == interval && kept_window == window,
{
}

/// A seek request keeps what it was made of.
pub proof fn seek_config_keeps_its_parts(
    timing: SeekTiming,
    filter_duplicates: bool,
    made: SeekConfig,
    kept_timing: SeekTiming,
    kept_filter_duplicates: bool,
)
    requires
        call_ensures(SeekConfig::new, (timing, filter_duplicates,), made),
        call_ensures(SeekConfig::timing, (made,), kept_timing),
        call_ensures(SeekConfig::filter_duplicates, (made,), kept_filter_duplicates),
    ensures
        kept_timing == timing,
        kept_filter_duplicates == filter_duplicates,
{
}


} // verus!
