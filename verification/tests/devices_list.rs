use beamish::devices::{apply_endpoint, device_from_endpoint, remove_id, upsert, Device, Endpoint};

fn ep(id: &str) -> Endpoint {
    Endpoint { id: id.to_string(), name: None, ip: None, port: None, present: None, bt_address: None, psm: None }
}

fn mdns(id: &str, name: &str, ip: &str, port: &str) -> Endpoint {
    Endpoint {
        name: Some(name.to_string()),
        ip: Some(ip.to_string()),
        port: Some(port.to_string()),
        present: Some(true),
        ..ep(id)
    }
}

fn ids(list: &[Device]) -> Vec<String> {
    list.iter().map(|d| d.id.clone()).collect()
}

#[test]
fn mdns_endpoint_is_reached_at_ip_and_port() {
    let d = device_from_endpoint(&mdns("A1", "Pixel", "192.168.1.5", "5200")).unwrap();
    assert_eq!(d.id, "A1");
    assert_eq!(d.name, "Pixel");
    assert_eq!(d.addr, "192.168.1.5:5200");
    assert_eq!(d.bt_address, None);
    assert_eq!(d.psm, None);
}

#[test]
fn bluetooth_endpoint_keeps_address_and_psm() {
    let e = Endpoint { bt_address: Some("AA:BB:CC:DD:EE:FF".to_string()), psm: Some(129), ..ep("B2") };
    let d = device_from_endpoint(&e).unwrap();
    assert_eq!(d.name, "B2");
    assert_eq!(d.addr, "");
    assert_eq!(d.bt_address, Some("AA:BB:CC:DD:EE:FF".to_string()));
    assert_eq!(d.psm, Some(129));
}

#[test]
fn ip_without_port_falls_back_to_bluetooth_or_nothing() {
    let e = Endpoint { ip: Some("10.0.0.2".to_string()), ..ep("C3") };
    assert!(device_from_endpoint(&e).is_none());
    let e = Endpoint { ip: Some("10.0.0.2".to_string()), bt_address: Some("11:22".to_string()), ..ep("C3") };
    assert_eq!(device_from_endpoint(&e).unwrap().bt_address, Some("11:22".to_string()));
}

#[test]
fn discovery_events_update_the_list() {
    let mut list: Vec<Device> = Vec::new();
    apply_endpoint(&mut list, &mdns("A", "Phone A", "1.1.1.1", "1"));
    apply_endpoint(&mut list, &mdns("B", "Phone B", "2.2.2.2", "2"));
    apply_endpoint(&mut list, &mdns("A", "Phone A2", "3.3.3.3", "3"));
    assert_eq!(ids(&list), vec!["A", "B"]);
    assert_eq!(list[0].name, "Phone A2");
    assert_eq!(list[0].addr, "3.3.3.3:3");
    // An endpoint with no address changes nothing.
    apply_endpoint(&mut list, &ep("Z"));
    assert_eq!(ids(&list), vec!["A", "B"]);
    // A gone endpoint is removed.
    apply_endpoint(&mut list, &Endpoint { present: Some(false), ..ep("A") });
    assert_eq!(ids(&list), vec!["B"]);
    // Removing an unknown id is harmless.
    apply_endpoint(&mut list, &Endpoint { present: Some(false), ..ep("Q") });
    assert_eq!(ids(&list), vec!["B"]);
}

#[test]
fn remove_and_upsert_directly() {
    let mk = |id: &str, name: &str| Device {
        id: id.to_string(),
        name: name.to_string(),
        addr: String::new(),
        bt_address: None,
        psm: None,
    };
    let mut list = vec![mk("x", "1"), mk("y", "2"), mk("x", "3"), mk("z", "4")];
    remove_id(&mut list, &"x".to_string());
    assert_eq!(ids(&list), vec!["y", "z"]);
    upsert(&mut list, mk("z", "5"));
    upsert(&mut list, mk("w", "6"));
    assert_eq!(ids(&list), vec!["y", "z", "w"]);
    assert_eq!(list[1].name, "5");
}
