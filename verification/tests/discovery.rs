use shortwave::discovery::{
    cast_entry, check_device_info_readable, device_info_from_xml, fallback_device_info,
    location_host, msearch_message, renderer_entries, renderer_entry, split_field_exec,
    ssdp_location, DeviceEntry, SwDeviceDiscovery, SwDeviceKind,
};

const REPLY: &str = "HTTP/1.1 200 OK\r\nCACHE-CONTROL: max-age=1800\r\nLOCATION:  http://192.168.1.20:49152/description.xml \r\nST: upnp:rootdevice\r\n\r\n";

const DESCRIPTION: &str = "<root><device><deviceType> urn:schemas-upnp-org:device:MediaRenderer:1 </deviceType><friendlyName>Living Room</friendlyName></device></root>";

fn entry(id: &str, name: &str) -> DeviceEntry {
    DeviceEntry {
        id: id.to_string(),
        kind: SwDeviceKind::Cast,
        name: name.to_string(),
        model: "Chromecast".to_string(),
        address: id.to_string(),
    }
}

#[test]
fn search_message_asks_for_root_devices() {
    assert_eq!(
        msearch_message(),
        "M-SEARCH * HTTP/1.1\r\nHOST: 239.255.255.250:1900\r\nMAN: \"ssdp:discover\"\r\nST: upnp:rootdevice\r\nMX: 2\r\n\r\n"
    );
}

#[test]
fn location_is_read_from_reply() {
    assert_eq!(
        ssdp_location(REPLY),
        Some("http://192.168.1.20:49152/description.xml".to_string())
    );
    assert_eq!(ssdp_location("HTTP/1.1 200 OK\r\nST: upnp:rootdevice\r\n"), None);
    assert_eq!(ssdp_location("HTTP/1.1 200 OK\r\nLocation: http://x/\r\n"), None);
    assert_eq!(
        ssdp_location("LOCATION: http://a/\nLOCATION: http://b/\n"),
        Some("http://a/".to_string())
    );
}

#[test]
fn host_of_location() {
    assert_eq!(location_host("http://192.168.1.20:49152/description.xml"), "192.168.1.20");
    assert_eq!(location_host("not a url"), "unknown");
    assert_eq!(
        fallback_device_info("10.0.0.5"),
        ("DLNA Device (10.0.0.5)".to_string(), "unknown".to_string())
    );
}

#[test]
fn device_info_keeps_bracket_of_name() {
    assert!(check_device_info_readable(DESCRIPTION));
    assert_eq!(
        device_info_from_xml(DESCRIPTION),
        (">Living Room".to_string(), "urn:schemas-upnp-org:device:MediaRenderer:1".to_string())
    );
    assert_eq!(
        device_info_from_xml("<root></root>"),
        ("Unknown Device".to_string(), "unknown".to_string())
    );
    assert!(!check_device_info_readable("</friendlyName><friendlyName>"));
}

#[test]
fn renderer_entry_filters_and_names() {
    let e = renderer_entry(
        "http://192.168.1.20:49152/description.xml",
        ">Living Room",
        "urn:schemas-upnp-org:device:MediaRenderer:1",
    )
    .unwrap();
    assert_eq!(e.id, "http://192.168.1.20:49152/description.xml");
    assert_eq!(e.address, "http://192.168.1.20:49152/description.xml");
    assert_eq!(e.kind, SwDeviceKind::Dlna);
    assert_eq!(e.name, "Living Room");
    assert_eq!(e.model, "DLNA MediaRenderer");
    assert!(renderer_entry("http://x/", "NAS", "urn:schemas-upnp-org:device:MediaServer:1").is_none());
    let bare = renderer_entry("http://x/", ">>TV", "MediaRenderer").unwrap();
    assert_eq!(bare.name, "TV");
    assert_eq!(bare.model, "DLNA MediaRenderer");
}

#[test]
fn renderer_entries_keep_order() {
    let infos = vec![
        ("http://a/".to_string(), ">A".to_string(), "urn:x:device:MediaRenderer:1".to_string()),
        ("http://b/".to_string(), ">B".to_string(), "urn:x:device:MediaServer:1".to_string()),
        ("http://c/".to_string(), "C".to_string(), "urn:x:device:MediaRenderer:2".to_string()),
    ];
    let r = renderer_entries(&infos);
    assert_eq!(r.len(), 2);
    assert_eq!(r[0].name, "A");
    assert_eq!(r[1].name, "C");
    assert_eq!(r[1].id, "http://c/");
}

#[test]
fn split_fields() {
    let s: Vec<char> = "urn:schemas-upnp-org:device:MediaRenderer:1".chars().collect();
    assert_eq!(split_field_exec(&s, ':', 0), Some("urn".to_string()));
    assert_eq!(split_field_exec(&s, ':', 3), Some("MediaRenderer".to_string()));
    assert_eq!(split_field_exec(&s, ':', 4), Some("1".to_string()));
    assert_eq!(split_field_exec(&s, ':', 5), None);
    let t: Vec<char> = "a::b".chars().collect();
    assert_eq!(split_field_exec(&t, ':', 1), Some("".to_string()));
}

#[test]
fn cast_entry_defaults() {
    let e = cast_entry("192.168.1.30", None, Some("Kitchen".to_string()), None);
    assert_eq!(e.id, "192.168.1.30");
    assert_eq!(e.kind, SwDeviceKind::Cast);
    assert_eq!(e.name, "Kitchen");
    assert_eq!(e.model, "Unknown Model");
    assert_eq!(e.address, "192.168.1.30");
    let f = cast_entry("10.0.0.2", Some("abc".to_string()), None, Some("Nest".to_string()));
    assert_eq!(f.id, "abc");
    assert_eq!(f.name, "Google Cast Device");
    assert_eq!(f.model, "Nest");
}

#[test]
fn scan_states() {
    let mut d = SwDeviceDiscovery::new();
    assert!(!d.is_scanning);
    assert!(d.begin_scan());
    d.add_device(entry("1", "One"));
    assert!(!d.begin_scan());
    assert_eq!(d.devices.len(), 1);
    d.end_scan();
    assert!(!d.is_scanning);
    assert_eq!(d.devices.len(), 1);
    d.stop();
    assert_eq!(d.devices.len(), 1);
    assert!(d.begin_scan());
    assert_eq!(d.devices.len(), 0);
    d.add_device(entry("2", "Two"));
    d.stop();
    assert!(!d.is_scanning);
    assert_eq!(d.devices.len(), 0);
}
