use hisi_rf_core::ble::{
    AddressType, AdvertisingChannels, AdvertisingConfig, AdvertisingInterval, AdvertisingPayload,
    AdvertisingTiming, BluetoothAddress, Bonding, GattCharacteristicDefinition,
    GattDescriptorDefinition, GattPermissions, GattProperties, GattServerDefinition,
    GattServiceDefinition, GattUuid, IoCapability, PairingState, ScanConfig, ScanInterval, ScanMode,
    ScanTiming, SecurityConfig, SecurityRequirement,
};

#[test]
fn rejects_invalid_addresses_and_timing() {
    assert!(BluetoothAddress::public([0; 6]).is_none());
    assert!(BluetoothAddress::random_static([1, 2, 3, 4, 5, 0x80]).is_none());
    assert!(BluetoothAddress::random_static([0, 0, 0, 0, 0, 0xc0]).is_none());
    assert!(BluetoothAddress::random_static([0xff; 6]).is_none());
    assert!(BluetoothAddress::random([1, 2, 3, 4, 5, 0x80]).is_none());
    assert!(BluetoothAddress::random([0; 6]).is_none());
    assert!(AdvertisingInterval::try_from_units(0x1f).is_none());
    let interval = ScanInterval::try_from_units(0x20).unwrap();
    let window = ScanInterval::try_from_units(0x30).unwrap();
    assert!(ScanTiming::try_new(interval, window).is_none());
}

#[test]
fn classifies_controller_random_addresses() {
    let static_address = BluetoothAddress::random([1, 2, 3, 4, 5, 0xc0]).unwrap();
    assert_eq!(static_address.address_type(), AddressType::RandomStatic);

    let resolvable = BluetoothAddress::random([1, 2, 3, 4, 5, 0x40]).unwrap();
    assert_eq!(resolvable.address_type(), AddressType::ResolvablePrivate);

    let non_resolvable = BluetoothAddress::random([1, 2, 3, 4, 5, 0x00]).unwrap();
    assert_eq!(
        non_resolvable.address_type(),
        AddressType::NonResolvablePrivate
    );
}

#[test]
fn bounds_legacy_advertising_data() {
    assert!(AdvertisingPayload::try_from_slice(&[0; 31]).is_some());
    assert!(AdvertisingPayload::try_from_slice(&[0; 32]).is_none());
    assert!(AdvertisingChannels::try_from_bits(0).is_none());
    assert!(AdvertisingChannels::try_from_bits(0x08).is_none());
}

#[test]
fn security_config_preserves_explicit_policy() {
    let config = SecurityConfig::new(
        Bonding::Enabled,
        IoCapability::DisplayYesNo,
        SecurityRequirement::SecureConnectionsAuthenticated,
    );

    assert_eq!(config.bonding(), Bonding::Enabled);
    assert_eq!(config.io_capability(), IoCapability::DisplayYesNo);
    assert_eq!(
        config.requirement(),
        SecurityRequirement::SecureConnectionsAuthenticated
    );
    assert_eq!(PairingState::NotPaired, PairingState::NotPaired);
}

fn leaked<T>(items: Vec<T>) -> &'static [T] {
    Box::leak(items.into_boxed_slice())
}

#[test]
fn validates_static_gatt_database_relations() {
    let ccc = GattDescriptorDefinition::try_new(
        GattUuid::Uuid16(0x2902),
        GattPermissions::read().union(GattPermissions::write()),
        &[0, 0],
        2,
    )
    .unwrap();
    let characteristic = GattCharacteristicDefinition::try_new(
        GattUuid::Uuid16(0xabcd),
        GattPermissions::read().union(GattPermissions::write()),
        GattProperties::read()
            .union(GattProperties::write())
            .union(GattProperties::notify()),
        b"U3",
        16,
        leaked(vec![ccc]),
    )
    .unwrap();
    let service =
        GattServiceDefinition::try_new(GattUuid::Uuid16(0xcdef), true, leaked(vec![characteristic]))
            .unwrap();
    let database =
        GattServerDefinition::try_new(GattUuid::Uuid16(0xb301), leaked(vec![service])).unwrap();

    assert_eq!(database.services()[0], service);
    assert!(GattCharacteristicDefinition::try_new(
        GattUuid::Uuid16(1),
        GattPermissions::read(),
        GattProperties::notify(),
        &[],
        1,
        &[],
    )
    .is_none());
    assert!(GattServiceDefinition::try_new(GattUuid::Uuid16(1), true, &[]).is_none());
}

#[test]
fn gatt_definitions_return_what_they_were_given() {
    let descriptor = GattDescriptorDefinition::try_new(
        GattUuid::Uuid16(0x2901),
        GattPermissions::read(),
        b"name",
        8,
    )
    .unwrap();
    assert_eq!(descriptor.uuid(), GattUuid::Uuid16(0x2901));
    assert_eq!(descriptor.permissions(), GattPermissions::read());
    assert_eq!(descriptor.initial_value(), b"name");
    assert_eq!(descriptor.maximum_len(), 8);
    assert!(GattDescriptorDefinition::try_new(
        GattUuid::Uuid16(1),
        GattPermissions::read(),
        &[],
        0
    )
    .is_none());
    assert!(GattDescriptorDefinition::try_new(
        GattUuid::Uuid16(1),
        GattPermissions::read(),
        &[1, 2, 3],
        2
    )
    .is_none());

    let uuid = GattUuid::Uuid128([7; 16]);
    let characteristic = GattCharacteristicDefinition::try_new(
        uuid,
        GattPermissions::write(),
        GattProperties::write_without_response(),
        &[1],
        4,
        leaked(vec![descriptor]),
    )
    .unwrap();
    assert_eq!(characteristic.uuid(), uuid);
    assert_eq!(characteristic.permissions().__bits(), 2);
    assert_eq!(characteristic.properties().__bits(), 4);
    assert_eq!(characteristic.initial_value(), &[1]);
    assert_eq!(characteristic.maximum_len(), 4);
    assert_eq!(characteristic.descriptors(), &[descriptor]);

    // A descriptor other than the client characteristic configuration does not
    // allow indications.
    assert!(GattCharacteristicDefinition::try_new(
        uuid,
        GattPermissions::write(),
        GattProperties::indicate(),
        &[],
        4,
        leaked(vec![descriptor]),
    )
    .is_none());

    let service =
        GattServiceDefinition::try_new(uuid, false, leaked(vec![characteristic])).unwrap();
    assert_eq!(service.uuid(), uuid);
    assert!(!service.is_primary());
    assert_eq!(service.characteristics(), &[characteristic]);
    assert!(GattServerDefinition::try_new(uuid, &[]).is_none());
    let server = GattServerDefinition::try_new(uuid, leaked(vec![service])).unwrap();
    assert_eq!(server.app_uuid(), uuid);
}

#[test]
fn gatt_flags_combine_and_contain() {
    let both = GattPermissions::read().union(GattPermissions::write());
    assert_eq!(both.__bits(), 3);
    assert!(both.contains(GattPermissions::read()));
    assert!(!GattPermissions::read().contains(both));
    let published = GattProperties::notify().union(GattProperties::indicate());
    assert_eq!(published.__bits(), 0x18);
    assert!(published.contains(GattProperties::indicate()));
    assert!(!published.contains(GattProperties::read()));
}

#[test]
fn random_parts_at_their_limits_are_rejected() {
    assert!(BluetoothAddress::random([9, 9, 9, 0, 0, 0x40]).is_none());
    assert!(BluetoothAddress::random([9, 9, 9, 0xff, 0xff, 0x7f]).is_none());
    assert!(BluetoothAddress::random([9, 9, 9, 0xff, 0xff, 0x7e]).is_some());
    assert!(BluetoothAddress::random([0xff, 0xff, 0xff, 0xff, 0xff, 0x3f]).is_some());
    assert!(BluetoothAddress::random_static([0xff, 0xff, 0xff, 0xff, 0xfe, 0xff]).is_some());
    let public = BluetoothAddress::public([0, 0, 0, 0, 0, 1]).unwrap();
    assert_eq!(public.bytes(), [0, 0, 0, 0, 0, 1]);
    assert_eq!(public.address_type(), AddressType::Public);
}

#[test]
fn advertising_and_scan_requests_keep_their_fields() {
    let short = AdvertisingInterval::try_from_units(0x20).unwrap();
    let long = AdvertisingInterval::try_from_units(0x4000).unwrap();
    assert!(AdvertisingInterval::try_from_units(0x4001).is_none());
    assert!(short < long);
    assert!(AdvertisingTiming::try_new(long, short).is_none());
    let timing = AdvertisingTiming::try_new(short, long).unwrap();
    assert_eq!(timing.minimum().as_units(), 0x20);
    assert_eq!(timing.maximum().as_units(), 0x4000);
    let payload = AdvertisingPayload::try_from_slice(&[2, 1, 6]).unwrap();
    let config = AdvertisingConfig::new(timing, AdvertisingChannels::all(), payload);
    assert_eq!(config.timing(), timing);
    assert_eq!(config.channels().bits(), 7);
    assert_eq!(config.payload().as_bytes(), &[2, 1, 6]);

    assert!(ScanInterval::try_from_units(3).is_none());
    assert!(ScanInterval::try_from_units(0x4001).is_none());
    let interval = ScanInterval::try_from_units(0x4000).unwrap();
    let window = ScanInterval::try_from_units(4).unwrap();
    let scan = ScanConfig::new(
        ScanTiming::try_new(interval, window).unwrap(),
        ScanMode::Active,
        true,
    );
    assert_eq!(scan.timing().interval().as_units(), 0x4000);
    assert_eq!(scan.timing().window().as_units(), 4);
    assert_eq!(scan.mode(), ScanMode::Active);
    assert!(scan.filter_duplicates());
}

#[test]
fn equal_payload_bytes_are_equal_payloads() {
    let a = AdvertisingPayload::try_from_slice(&[1, 2]).unwrap();
    let b = AdvertisingPayload::try_from_slice(&[1, 2]).unwrap();
    let c = AdvertisingPayload::try_from_slice(&[1, 2, 0]).unwrap();
    assert_eq!(a, b);
    assert_ne!(a, c);
}
