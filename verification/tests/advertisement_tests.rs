use bluster::advertisement::Advertisement;
use bluster::advertisement::MethodReply;
use bluster::remote::Error;
use bluster::tree::DispatchError;
use bluster::values::PropertyValue;
use bluster::values::WireVariant;

const ADV_PATH: &str = "/org/bluez/bluster/advertisement0000";
const ADV_IFACE: &str = "org.bluez.LEAdvertisement1";
const OM_IFACE: &str = "org.freedesktop.DBus.ObjectManager";

#[test]
fn advertisement_path_is_base_plus_slot() {
    let adv = Advertisement::new("/org/bluez/hci0".to_owned());
    assert_eq!(adv.object_path, ADV_PATH);
}

#[test]
fn reads_before_any_write_return_empty_defaults() {
    let adv = Advertisement::new("/org/bluez/hci0".to_owned());
    match adv.read_property(ADV_PATH, ADV_IFACE, "Type") {
        Ok(PropertyValue::Text(t)) => assert_eq!(t, "peripheral"),
        other => panic!("unexpected: {:?}", other.is_ok()),
    }
    match adv.read_property(ADV_PATH, ADV_IFACE, "LocalName") {
        Ok(PropertyValue::Text(t)) => assert_eq!(t, ""),
        other => panic!("unexpected: {:?}", other.is_ok()),
    }
    match adv.read_property(ADV_PATH, ADV_IFACE, "ServiceUUIDs") {
        Ok(PropertyValue::TextList(v)) => assert!(v.is_empty()),
        other => panic!("unexpected: {:?}", other.is_ok()),
    }
    match adv.read_property(ADV_PATH, ADV_IFACE, "ServiceData") {
        Ok(PropertyValue::DataMap(d)) => assert_eq!(d.len(), 0),
        other => panic!("unexpected: {:?}", other.is_ok()),
    }
}

#[test]
fn each_read_reflects_most_recent_write() {
    let mut adv = Advertisement::new("/org/bluez/hci0".to_owned());
    adv.add_name("first".to_owned());
    match adv.read_property(ADV_PATH, ADV_IFACE, "LocalName") {
        Ok(PropertyValue::Text(t)) => assert_eq!(t, "first"),
        _ => panic!("expected text"),
    }
    adv.add_uuids(vec!["180f".to_owned()]);
    adv.add_name("second".to_owned());
    match adv.read_property(ADV_PATH, ADV_IFACE, "LocalName") {
        Ok(PropertyValue::Text(t)) => assert_eq!(t, "second"),
        _ => panic!("expected text"),
    }
    // the interleaved uuid write was not lost
    match adv.read_property(ADV_PATH, ADV_IFACE, "ServiceUUIDs") {
        Ok(PropertyValue::TextList(v)) => assert_eq!(v, vec!["180f".to_owned()]),
        _ => panic!("expected list"),
    }
}

#[test]
fn service_data_overwrites_same_identifier() {
    let mut adv = Advertisement::new("/org/bluez/hci0".to_owned());
    adv.add_service_data("180d".to_owned(), vec![0x01]);
    adv.add_service_data("180d".to_owned(), vec![0x02, 0x03]);
    match adv.read_property(ADV_PATH, ADV_IFACE, "ServiceData") {
        Ok(PropertyValue::DataMap(d)) => {
            assert_eq!(d.len(), 1);
            assert_eq!(d.get(&"180d".to_owned()), Some(&vec![0x02, 0x03]));
        },
        _ => panic!("expected map"),
    }
}

#[test]
fn register_success_then_release_revokes() {
    let mut adv = Advertisement::new("/org/bluez/hci0".to_owned());
    let call = adv.register();
    assert_eq!(call.destination, "org.bluez");
    assert_eq!(call.target_path, "/org/bluez/hci0");
    assert_eq!(call.interface, "org.bluez.LEAdvertisingManager1");
    assert_eq!(call.member, "RegisterAdvertisement");
    assert_eq!(call.argument_path, ADV_PATH);
    assert!(!adv.is_advertising());

    let r = adv.register_complete(Ok(()));
    assert!(r.is_ok());
    assert!(adv.is_advertising());

    // the manager revokes the advertisement; no local unregister happens
    match adv.dispatch_method(ADV_PATH, ADV_IFACE, "Release") {
        Ok(MethodReply::Empty) => {},
        _ => panic!("expected the release to succeed with an empty reply"),
    }
    assert!(!adv.is_advertising());
}

#[test]
fn register_failure_leaves_flag_unset_and_propagates_error() {
    let mut adv = Advertisement::new("/org/bluez/hci0".to_owned());
    let _ = adv.register();
    let r = adv.register_complete(Err(Error::Remote("Already Exists".to_owned())));
    match r {
        Err(Error::Remote(m)) => assert_eq!(m, "Already Exists"),
        _ => panic!("expected the remote error back"),
    }
    assert!(!adv.is_advertising());
}

#[test]
fn unregister_clears_flag_before_the_remote_call_resolves() {
    let mut adv = Advertisement::new("/org/bluez/hci0".to_owned());
    let _ = adv.register();
    let _ = adv.register_complete(Ok(()));
    assert!(adv.is_advertising());

    let call = adv.unregister();
    assert_eq!(call.member, "UnregisterAdvertisement");
    assert_eq!(call.argument_path, ADV_PATH);
    // cleared synchronously, before any reply
    assert!(!adv.is_advertising());

    // even a failing remote call leaves the local view "not advertising"
    let r = adv.unregister_complete(Err(Error::Remote("Does Not Exist".to_owned())));
    assert!(r.is_err());
    assert!(!adv.is_advertising());
}

#[test]
fn enumeration_after_construction_shows_defaults() {
    let adv = Advertisement::new("/org/bluez/hci0".to_owned());
    let snaps = adv.get_managed_objects();
    assert_eq!(snaps.len(), 1);
    assert_eq!(snaps[0].path, ADV_PATH);
    assert_eq!(snaps[0].interfaces.len(), 2);
    let ifc = &snaps[0].interfaces[0];
    assert_eq!(ifc.name, ADV_IFACE);
    assert_eq!(ifc.properties.len(), 4);
    assert_eq!(ifc.properties[0].0, "Type");
    match &ifc.properties[0].1 {
        PropertyValue::Text(t) => assert_eq!(t, "peripheral"),
        _ => panic!("expected text"),
    }
    assert_eq!(ifc.properties[1].0, "LocalName");
    match &ifc.properties[1].1 {
        PropertyValue::Text(t) => assert_eq!(t, ""),
        _ => panic!("expected text"),
    }
    assert_eq!(ifc.properties[2].0, "ServiceUUIDs");
    match &ifc.properties[2].1 {
        PropertyValue::TextList(v) => assert!(v.is_empty()),
        _ => panic!("expected list"),
    }
    assert_eq!(ifc.properties[3].0, "ServiceData");
    match &ifc.properties[3].1 {
        PropertyValue::DataMap(d) => assert_eq!(d.len(), 0),
        _ => panic!("expected map"),
    }
    assert_eq!(snaps[0].interfaces[1].name, OM_IFACE);
    assert!(snaps[0].interfaces[1].properties.is_empty());
}

#[test]
fn end_to_end_snapshot_reflects_all_writes() {
    let mut adv = Advertisement::new("/org/bluez/hci0".to_owned());
    adv.add_name("sensor".to_owned());
    adv.add_uuids(vec!["180d".to_owned()]);
    adv.add_service_data("180d".to_owned(), vec![0x01, 0x02]);

    let snaps = adv.get_managed_objects();
    assert_eq!(snaps.len(), 1);
    assert_eq!(snaps[0].path, ADV_PATH);
    let ifc = &snaps[0].interfaces[0];
    match &ifc.properties[0].1 {
        PropertyValue::Text(t) => assert_eq!(t, "peripheral"),
        _ => panic!("expected text"),
    }
    match &ifc.properties[1].1 {
        PropertyValue::Text(t) => assert_eq!(t, "sensor"),
        _ => panic!("expected text"),
    }
    match &ifc.properties[2].1 {
        PropertyValue::TextList(v) => assert_eq!(v, &vec!["180d".to_owned()]),
        _ => panic!("expected list"),
    }
    match &ifc.properties[3].1 {
        PropertyValue::DataMap(d) => {
            // encoded for transmission: each entry a single-element
            // byte-sequence variant keyed by its identifier
            let wire = d.encode();
            assert_eq!(wire.len(), 1);
            assert_eq!(wire[0].0, "180d");
            let WireVariant::Bytes(b) = &wire[0].1;
            assert_eq!(b, &vec![0x01, 0x02]);
        },
        _ => panic!("expected map"),
    }
}

#[test]
fn enumeration_via_method_dispatch() {
    let mut adv = Advertisement::new("/org/bluez/hci0".to_owned());
    adv.add_name("sensor".to_owned());
    match adv.dispatch_method(ADV_PATH, OM_IFACE, "GetManagedObjects") {
        Ok(MethodReply::ManagedObjects(snaps)) => {
            assert_eq!(snaps.len(), 1);
            match &snaps[0].interfaces[0].properties[1].1 {
                PropertyValue::Text(t) => assert_eq!(t, "sensor"),
                _ => panic!("expected text"),
            }
        },
        _ => panic!("expected the enumeration to succeed"),
    }
}

#[test]
fn dispatch_misses_surface_the_right_errors() {
    let mut adv = Advertisement::new("/org/bluez/hci0".to_owned());
    assert!(matches!(
        adv.read_property("/somewhere/else", ADV_IFACE, "Type"),
        Err(DispatchError::NoSuchObject)
    ));
    assert!(matches!(
        adv.read_property(ADV_PATH, "org.bluez.Battery1", "Type"),
        Err(DispatchError::NoSuchInterface)
    ));
    assert!(matches!(
        adv.read_property(ADV_PATH, ADV_IFACE, "TxPower"),
        Err(DispatchError::NoSuchMember)
    ));
    assert!(matches!(
        adv.dispatch_method("/somewhere/else", ADV_IFACE, "Release"),
        Err(DispatchError::NoSuchObject)
    ));
    assert!(matches!(
        adv.dispatch_method(ADV_PATH, "org.bluez.Battery1", "Release"),
        Err(DispatchError::NoSuchInterface)
    ));
    assert!(matches!(
        adv.dispatch_method(ADV_PATH, ADV_IFACE, "Revoke"),
        Err(DispatchError::NoSuchMember)
    ));
    // a miss never changes local state
    assert!(!adv.is_advertising());
}

#[test]
fn remote_error_keeps_the_provider_message() {
    let e = Error::Remote("org.bluez.Error.NotPermitted".to_owned());
    assert_eq!(e.message(), "org.bluez.Error.NotPermitted");
}
