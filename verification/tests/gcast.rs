use shortwave::gcast::{
    check_txt_well_formed, gcast_device, same_device, txt_lookup, GCastDevice, GCastDiscoverer,
    IpAddress,
};

fn txt(values: &[&str]) -> Vec<String> {
    values.iter().map(|v| v.to_string()).collect()
}

fn device(id: &str, ip: IpAddress, name: &str) -> GCastDevice {
    GCastDevice { id: id.to_string(), ip, name: name.to_string() }
}

#[test]
fn txt_values_split_at_equals() {
    let values = txt(&["id=abc", "fn=Kitchen=speaker", "md=Nest Mini"]);
    assert!(check_txt_well_formed(&values));
    assert_eq!(txt_lookup(&values, "id"), Some("abc".to_string()));
    assert_eq!(txt_lookup(&values, "fn"), Some("Kitchen".to_string()));
    assert_eq!(txt_lookup(&values, "md"), Some("Nest Mini".to_string()));
    assert_eq!(txt_lookup(&values, "ve"), None);
    assert!(!check_txt_well_formed(&txt(&["id=abc", "broken"])));
}

#[test]
fn later_txt_value_wins() {
    let values = txt(&["fn=Old", "fn=New"]);
    assert_eq!(txt_lookup(&values, "fn"), Some("New".to_string()));
}

#[test]
fn device_needs_an_address() {
    let values = txt(&["id=abc", "fn=Kitchen"]);
    assert!(gcast_device(None, &values).is_none());
    let d = gcast_device(Some(IpAddress::V4(0xC0A8_0114)), &values).unwrap();
    assert_eq!(d.id, "abc");
    assert_eq!(d.name, "Kitchen");
    assert_eq!(d.ip, IpAddress::V4(0xC0A8_0114));
    let anonymous = gcast_device(Some(IpAddress::V6(1)), &txt(&["md=Nest"])).unwrap();
    assert_eq!(anonymous.id, "");
    assert_eq!(anonymous.name, "");
}

#[test]
fn devices_are_recorded_once_newest_first() {
    let mut d = GCastDiscoverer::new();
    let a = device("a", IpAddress::V4(1), "A");
    let b = device("b", IpAddress::V4(2), "B");
    assert!(d.record_device(a.clone()));
    assert!(d.record_device(b.clone()));
    assert!(!d.record_device(a.clone()));
    assert_eq!(d.known_devices.len(), 2);
    assert!(same_device(&d.known_devices[0], &b));
    assert!(same_device(&d.known_devices[1], &a));
    assert!(!same_device(&a, &b));
    d.reset();
    assert!(d.known_devices.is_empty());
    assert!(d.record_device(a));
}

#[test]
fn device_found_by_address() {
    let mut d = GCastDiscoverer::new();
    d.record_device(device("a", IpAddress::V4(1), "A"));
    d.record_device(device("b", IpAddress::V4(2), "B"));
    d.record_device(device("c", IpAddress::V4(1), "C"));
    let found = d.device_by_ip_addr(IpAddress::V4(1)).unwrap();
    assert_eq!(found.id, "c");
    assert_eq!(d.device_by_ip_addr(IpAddress::V4(2)).unwrap().name, "B");
    assert!(d.device_by_ip_addr(IpAddress::V6(1)).is_none());
}
