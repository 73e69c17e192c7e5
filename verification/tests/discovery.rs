use mdns_sd::{ResolvedService, ServiceInfo};
use punktfunk_webos::discovery::{
    addr_and_name, host_from_parts, on_browse_event, parse_discovery, pick_addr_and_name, BrowseAction, BrowseEvent,
    SERVICE_TYPE,
};

fn service(ip: &str, props: &[(&str, &str)]) -> ResolvedService {
    ServiceInfo::new(SERVICE_TYPE, "living-room", "tv-host.local.", ip, 9777, props)
        .unwrap()
        .as_resolved_service()
}

#[test]
fn a_full_record_becomes_a_host() {
    let info = service(
        "192.168.1.20",
        &[("mgmt", "47990"), ("mac", "aa:bb:cc:dd:ee:ff, 11:22:33:44:55:66 ,,")],
    );
    let host = parse_discovery(&info).unwrap();
    assert_eq!(host.name, "living-room");
    assert_eq!(host.addr, "192.168.1.20");
    assert_eq!(host.port, 9777);
    assert_eq!(host.mgmt_port, Some(47990));
    assert_eq!(host.mac, vec!["aa:bb:cc:dd:ee:ff", "11:22:33:44:55:66"]);
}

#[test]
fn keys_are_looked_up_without_regard_to_case() {
    let host = parse_discovery(&service("10.0.0.1", &[("MGMT", "1"), ("Mac", "x")])).unwrap();
    assert_eq!(host.mgmt_port, Some(1));
    assert_eq!(host.mac, vec!["x"]);
}

#[test]
fn missing_and_bad_properties_are_left_out() {
    let host = parse_discovery(&service("10.0.0.1", &[])).unwrap();
    assert_eq!(host.mgmt_port, None);
    assert!(host.mac.is_empty());
    let host = parse_discovery(&service("10.0.0.1", &[("mgmt", "65536"), ("mac", " , ")])).unwrap();
    assert_eq!(host.mgmt_port, None);
    assert!(host.mac.is_empty());
}

#[test]
fn a_record_without_ipv4_is_no_host() {
    let info = service("fe80::1", &[("mgmt", "1")]);
    assert!(parse_discovery(&info).is_none());
    assert!(addr_and_name(&info).is_none());
}

#[test]
fn one_of_several_ipv4_addresses_is_taken() {
    let (addr, name) = addr_and_name(&service("10.0.0.1,fe80::1,10.0.0.2", &[])).unwrap();
    assert!(addr == "10.0.0.1" || addr == "10.0.0.2");
    assert_eq!(name, "living-room");
}

#[test]
fn the_first_address_and_the_instance_name_are_picked() {
    let addrs = vec!["10.0.0.7".to_string(), "10.0.0.8".to_string()];
    assert_eq!(
        pick_addr_and_name("den._punktfunk._udp.local.", &addrs),
        Some(("10.0.0.7".to_string(), "den".to_string()))
    );
    assert_eq!(pick_addr_and_name("den", &Vec::new()), None);
}

#[test]
fn host_parts_are_kept() {
    let host = host_from_parts("den".to_string(), "1.2.3.4".to_string(), 5, Some("+80"), Some("a,b"));
    assert_eq!((host.name.as_str(), host.addr.as_str(), host.port), ("den", "1.2.3.4", 5));
    assert_eq!(host.mgmt_port, Some(80));
    assert_eq!(host.mac, vec!["a", "b"]);
}

#[test]
fn browsing_goes_on_until_it_cannot() {
    assert!(matches!(on_browse_event(BrowseEvent::Started { ok: true }), BrowseAction::Receive));
    assert!(matches!(on_browse_event(BrowseEvent::Started { ok: false }), BrowseAction::Shutdown));
    assert!(matches!(on_browse_event(BrowseEvent::Other), BrowseAction::Receive));
    assert!(matches!(on_browse_event(BrowseEvent::Disconnected), BrowseAction::Shutdown));
    assert!(matches!(on_browse_event(BrowseEvent::HandedOn { ok: true }), BrowseAction::Receive));
    assert!(matches!(on_browse_event(BrowseEvent::HandedOn { ok: false }), BrowseAction::Shutdown));
    let unusable = parse_discovery(&service("fe80::1", &[]));
    assert!(matches!(on_browse_event(BrowseEvent::Resolved { host: unusable }), BrowseAction::Receive));
    let usable = parse_discovery(&service("10.0.0.9", &[]));
    match on_browse_event(BrowseEvent::Resolved { host: usable }) {
        BrowseAction::HandOn { host } => assert_eq!(host.addr, "10.0.0.9"),
        _ => panic!("a usable host is handed on"),
    }
}

#[test]
fn a_browse_hands_on_the_usable_hosts_before_its_end() {
    let at = |ip: &str| BrowseEvent::Resolved { host: parse_discovery(&service(ip, &[])) };
    let events = vec![
        BrowseEvent::Started { ok: true },
        BrowseEvent::Other,
        at("10.0.0.1"),
        BrowseEvent::HandedOn { ok: true },
        at("fe80::1"),
        at("10.0.0.2"),
        BrowseEvent::HandedOn { ok: true },
        at("10.0.0.1"),
        BrowseEvent::HandedOn { ok: false },
        at("10.0.0.3"),
    ];
    let mut handed_on = Vec::new();
    let mut steps = 0;
    for event in events {
        steps += 1;
        match on_browse_event(event) {
            BrowseAction::Receive => {}
            BrowseAction::HandOn { host } => handed_on.push(host.addr),
            BrowseAction::Shutdown => break,
        }
    }
    assert_eq!(steps, 9);
    assert_eq!(handed_on, ["10.0.0.1", "10.0.0.2", "10.0.0.1"]);
}
