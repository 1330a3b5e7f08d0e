use hisi_rf_core::sle::{
    AddressType, AnnounceChannels, AnnounceConfig, AnnounceInterval, AnnouncePayload,
    AnnounceTiming, SeekConfig, SeekInterval, SeekTiming, SleAddress,
};

#[test]
fn validates_addresses_timing_and_channels() {
    assert!(SleAddress::try_new([0; 6], AddressType::Public).is_none());
    assert!(AnnounceInterval::try_from_units(0x1f).is_none());
    assert!(AnnounceInterval::try_from_units(0x0100_0000).is_none());
    let short = AnnounceInterval::try_from_units(0x20).unwrap();
    let long = AnnounceInterval::try_from_units(0x40).unwrap();
    assert!(AnnounceTiming::try_new(long, short).is_none());
    assert!(AnnounceChannels::try_from_bits(0).is_none());
    assert!(AnnounceChannels::try_from_bits(0x08).is_none());
}

#[test]
fn bounds_announce_payloads() {
    assert!(AnnouncePayload::try_from_slice(&[0; 64]).is_some());
    assert!(AnnouncePayload::try_from_slice(&[0; 65]).is_none());
    assert!(SeekInterval::try_from_units(0x13).is_none());
    let interval = SeekInterval::try_from_units(100).unwrap();
    let window = SeekInterval::try_from_units(101).unwrap();
    assert!(SeekTiming::try_new(interval, window).is_none());
}

#[test]
fn announce_and_seek_requests_keep_their_fields() {
    let address = SleAddress::try_new([0, 0, 0, 0, 0, 1], AddressType::Random).unwrap();
    assert_eq!(address.bytes(), [0, 0, 0, 0, 0, 1]);
    assert_eq!(address.address_type(), AddressType::Random);

    let short = AnnounceInterval::try_from_units(0x20).unwrap();
    let long = AnnounceInterval::try_from_units(0x00ff_ffff).unwrap();
    let timing = AnnounceTiming::try_new(short, long).unwrap();
    assert_eq!(timing.minimum().as_units(), 0x20);
    assert_eq!(timing.maximum().as_units(), 0x00ff_ffff);
    let data = AnnouncePayload::try_from_slice(b"data").unwrap();
    let response = AnnouncePayload::try_from_slice(&[]).unwrap();
    let config = AnnounceConfig::new(timing, AnnounceChannels::all(), data, response);
    assert_eq!(config.timing(), timing);
    assert_eq!(config.channels().bits(), 7);
    assert_eq!(config.data().as_bytes(), b"data");
    assert_eq!(config.seek_response().as_bytes(), b"");
    assert_eq!(AnnounceChannels::try_from_bits(5).unwrap().bits(), 5);

    let interval = SeekInterval::try_from_units(u16::MAX).unwrap();
    let window = SeekInterval::try_from_units(0x14).unwrap();
    let seek = SeekConfig::new(SeekTiming::try_new(interval, window).unwrap(), false);
    assert_eq!(seek.timing().interval().as_units(), u16::MAX);
    assert_eq!(seek.timing().window().as_units(), 0x14);
    assert!(!seek.filter_duplicates());
}

#[test]
fn equal_announce_bytes_are_equal_payloads() {
    let a = AnnouncePayload::try_from_slice(&[9; 3]).unwrap();
    let b = AnnouncePayload::try_from_slice(&[9; 3]).unwrap();
    let c = AnnouncePayload::try_from_slice(&[9; 4]).unwrap();
    assert_eq!(a, b);
    assert_ne!(a, c);
}
