use marstek_core::discovery::{discover_devices, discovery_request, DiscoveryScan};

fn dg(payload: &[u8], ip: &[u8]) -> (Vec<u8>, Vec<u8>) {
    (payload.to_vec(), ip.to_vec())
}

#[test]
fn discovery_request_exact_bytes() {
    assert_eq!(
        discovery_request(),
        br#"{"id":0,"method":"Marstek.GetDevice","params":{"ble_mac":"0"}}"#.to_vec()
    );
}

#[test]
fn distinct_sources_give_one_entry_each() {
    let datagrams = vec![
        dg(br#"{"result":{"device":"VenusE","ver":3}}"#, b"10.0.0.1"),
        dg(br#"{"result":{"device":"VenusC","ver":7}}"#, b"10.0.0.2"),
    ];
    let devices = discover_devices(&datagrams);
    assert_eq!(devices.len(), 2);
    assert_eq!(devices[0].ip, b"10.0.0.1".to_vec());
    assert_eq!(devices[0].port, 30000);
    assert_eq!(devices[0].device, Some(b"VenusE".to_vec()));
    assert_eq!(devices[0].ver, Some(3));
    assert_eq!(devices[1].ip, b"10.0.0.2".to_vec());
    assert_eq!(devices[1].device, Some(b"VenusC".to_vec()));
    assert_eq!(devices[1].ver, Some(7));
}

#[test]
fn duplicate_source_is_recorded_once_first_seen_wins() {
    let datagrams = vec![
        dg(br#"{"result":{"device":"First","ver":1}}"#, b"10.0.0.1"),
        dg(br#"{"result":{"device":"Second","ver":2}}"#, b"10.0.0.1"),
    ];
    let devices = discover_devices(&datagrams);
    assert_eq!(devices.len(), 1);
    assert_eq!(devices[0].device, Some(b"First".to_vec()));
    assert_eq!(devices[0].ver, Some(1));
}

#[test]
fn malformed_datagram_mid_scan_is_ignored() {
    let datagrams = vec![
        dg(br#"{"result":{"device":"A"}}"#, b"10.0.0.1"),
        dg(b"not json at all", b"10.0.0.9"),
        dg(br#"{"result":{"device":"B"}}"#, b"10.0.0.2"),
    ];
    let devices = discover_devices(&datagrams);
    assert_eq!(devices.len(), 2);
    assert_eq!(devices[0].device, Some(b"A".to_vec()));
    assert_eq!(devices[1].device, Some(b"B".to_vec()));
}

#[test]
fn reply_without_result_is_ignored() {
    let datagrams = vec![dg(br#"{"id":0,"error":"x"}"#, b"10.0.0.1")];
    assert_eq!(discover_devices(&datagrams).len(), 0);
}

#[test]
fn empty_scan_returns_nothing() {
    assert_eq!(discover_devices(&Vec::new()).len(), 0);
}

#[test]
fn missing_or_odd_fields_stay_unknown() {
    // result present but not an object: the sender is still recorded
    let mut scan = DiscoveryScan::new();
    scan.process_datagram(br#"{"result":5}"#, b"10.0.0.3".to_vec());
    assert_eq!(scan.devices.len(), 1);
    assert_eq!(scan.devices[0].device, None);
    assert_eq!(scan.devices[0].ver, None);

    // a non-string name and a negative version stay unknown
    let mut scan2 = DiscoveryScan::new();
    scan2.process_datagram(
        br#"{"result":{"device":7,"ver":-1}}"#,
        b"10.0.0.4".to_vec(),
    );
    assert_eq!(scan2.devices.len(), 1);
    assert_eq!(scan2.devices[0].device, None);
    assert_eq!(scan2.devices[0].ver, None);
}

#[test]
fn oversized_version_is_truncated_to_32_bits() {
    let mut scan = DiscoveryScan::new();
    scan.process_datagram(
        br#"{"result":{"ver":4294967301}}"#,
        b"10.0.0.5".to_vec(),
    );
    assert_eq!(scan.devices[0].ver, Some(5));
}
