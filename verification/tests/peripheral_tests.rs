use bluster::advertisement::MethodReply;
use bluster::application::Application;
use bluster::peripheral::Peripheral;
use bluster::remote::Error;
use bluster::tree::ObjectTree;
use bluster::values::PropertyValue;
use uuid::Uuid;

const ADV_PATH: &str = "/org/bluez/bluster/advertisement0000";
const ADV_IFACE: &str = "org.bluez.LEAdvertisement1";
const BASE_PATH: &str = "/org/bluez/bluster";

#[test]
fn application_registers_root_at_base_path() {
    let mut tree = ObjectTree::new();
    let app = Application::new(&mut tree, "/org/bluez/hci0".to_owned());
    assert_eq!(app.object_path, BASE_PATH);
    assert!(tree.contains_object(BASE_PATH));
}

#[test]
fn application_register_and_unregister_calls() {
    let mut tree = ObjectTree::new();
    let app = Application::new(&mut tree, "/org/bluez/hci0".to_owned());

    let reg = app.register();
    assert_eq!(reg.destination, "org.bluez");
    assert_eq!(reg.target_path, "/org/bluez/hci0");
    assert_eq!(reg.interface, "org.bluez.GattManager1");
    assert_eq!(reg.member, "RegisterApplication");
    assert_eq!(reg.argument_path, BASE_PATH);

    let unreg = app.unregister();
    assert_eq!(unreg.interface, "org.bluez.GattManager1");
    assert_eq!(unreg.member, "UnregisterApplication");
    assert_eq!(unreg.argument_path, BASE_PATH);
}

#[test]
fn peripheral_starts_not_advertising() {
    let p = Peripheral::new("/org/bluez/hci0".to_owned());
    assert_eq!(p.is_advertising(), Ok(false));
}

#[test]
fn peripheral_gatt_calls_target_the_adapter() {
    let p = Peripheral::new("/org/bluez/hci0".to_owned());
    let reg = p.register_gatt();
    assert_eq!(reg.target_path, "/org/bluez/hci0");
    assert_eq!(reg.member, "RegisterApplication");
    let unreg = p.unregister_gatt();
    assert_eq!(unreg.member, "UnregisterApplication");
}

#[test]
fn start_advertising_renders_uuids_and_fills_the_store() {
    let mut p = Peripheral::new("/org/bluez/hci0".to_owned());
    let heart_rate = Uuid::parse_str("0000180d-0000-1000-8000-00805f9b34fb").unwrap();
    let data = vec![("180d".to_owned(), vec![0x01u8, 0x02])];

    let call = p.start_advertising("sensor", &vec![heart_rate], &data);
    assert_eq!(call.destination, "org.bluez");
    assert_eq!(call.target_path, "/org/bluez/hci0");
    assert_eq!(call.interface, "org.bluez.LEAdvertisingManager1");
    assert_eq!(call.member, "RegisterAdvertisement");
    assert_eq!(call.argument_path, ADV_PATH);
    // the flag waits for the manager's reply
    assert_eq!(p.is_advertising(), Ok(false));

    match p.read_property(ADV_PATH, ADV_IFACE, "LocalName") {
        Ok(PropertyValue::Text(t)) => assert_eq!(t, "sensor"),
        _ => panic!("expected text"),
    }
    // the UUID entered the store in its canonical hyphenated text form
    match p.read_property(ADV_PATH, ADV_IFACE, "ServiceUUIDs") {
        Ok(PropertyValue::TextList(v)) => {
            assert_eq!(v, vec!["0000180d-0000-1000-8000-00805f9b34fb".to_owned()])
        },
        _ => panic!("expected list"),
    }
    match p.read_property(ADV_PATH, ADV_IFACE, "ServiceData") {
        Ok(PropertyValue::DataMap(d)) => {
            assert_eq!(d.len(), 1);
            assert_eq!(d.get(&"180d".to_owned()), Some(&vec![0x01, 0x02]));
        },
        _ => panic!("expected map"),
    }
}

#[test]
fn confirm_advertising_applies_the_remote_outcome() {
    let mut p = Peripheral::new("/org/bluez/hci0".to_owned());
    let _ = p.start_advertising("sensor", &Vec::new(), &Vec::new());

    let failed = p.confirm_advertising(Err(Error::Remote("Not Ready".to_owned())));
    assert!(failed.is_err());
    assert_eq!(p.is_advertising(), Ok(false));

    let ok = p.confirm_advertising(Ok(()));
    assert!(ok.is_ok());
    assert_eq!(p.is_advertising(), Ok(true));
}

#[test]
fn stop_advertising_clears_the_flag_synchronously() {
    let mut p = Peripheral::new("/org/bluez/hci0".to_owned());
    let _ = p.start_advertising("sensor", &Vec::new(), &Vec::new());
    let _ = p.confirm_advertising(Ok(()));
    assert_eq!(p.is_advertising(), Ok(true));

    let call = p.stop_advertising();
    assert_eq!(call.member, "UnregisterAdvertisement");
    assert_eq!(p.is_advertising(), Ok(false));
}

#[test]
fn release_through_the_peripheral_revokes_advertising() {
    let mut p = Peripheral::new("/org/bluez/hci0".to_owned());
    let _ = p.start_advertising("sensor", &Vec::new(), &Vec::new());
    let _ = p.confirm_advertising(Ok(()));
    assert_eq!(p.is_advertising(), Ok(true));

    match p.dispatch_method(ADV_PATH, ADV_IFACE, "Release") {
        Ok(MethodReply::Empty) => {},
        _ => panic!("expected the release to succeed"),
    }
    assert_eq!(p.is_advertising(), Ok(false));
}

#[test]
fn services_attach_under_the_application_root() {
    let mut p = Peripheral::new("/org/bluez/hci0".to_owned());
    let service_path = "/org/bluez/bluster/service0000";
    assert!(!p.has_service_path(service_path));
    p.add_service(service_path.to_owned());
    assert!(p.has_service_path(service_path));
}
