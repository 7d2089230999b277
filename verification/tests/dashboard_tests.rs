use marstek_core::codec::decode_reply;
use marstek_core::dashboard::{
    decode_battery_status, decode_device_info, decode_wifi_status, DashboardBuilder,
};
use marstek_core::error::Error;
use marstek_core::json::Json;
use marstek_core::store::DeviceStore;

fn obj(pairs: Vec<(&str, Json)>) -> Json {
    Json::Obj(
        pairs
            .into_iter()
            .map(|(k, v)| (k.as_bytes().to_vec(), v))
            .collect(),
    )
}

fn selected() -> DeviceStore {
    let mut store = DeviceStore::new();
    store.set_device(b"192.168.1.9".to_vec(), None);
    store
}

#[test]
fn missing_members_are_unknown_not_defaults() {
    // a reply whose result omits several expected members
    let result = decode_reply(br#"{"id":1,"result":{"soc":55}}"#).unwrap();
    let battery = decode_battery_status(&result);
    assert_eq!(battery.soc, Some(55));
    assert_eq!(battery.charg_flag, None);
    assert_eq!(battery.dischrg_flag, None);
    assert_eq!(battery.bat_temp, None);
    assert_eq!(battery.bat_capacity, None);
    assert_eq!(battery.rated_capacity, None);
}

#[test]
fn null_members_are_unknown() {
    let v = obj(vec![("ssid", Json::Null), ("rssi", Json::Int(-60))]);
    let wifi = decode_wifi_status(&v);
    assert_eq!(wifi.ssid, None);
    assert_eq!(wifi.rssi, Some(-60));
    assert_eq!(wifi.sta_ip, None);
}

#[test]
fn one_mistyped_member_turns_the_whole_record_unknown() {
    let v = obj(vec![
        ("soc", Json::Str(b"high".to_vec())),
        ("bat_temp", Json::Num(b"25.5".to_vec())),
    ]);
    let battery = decode_battery_status(&v);
    assert_eq!(battery.soc, None);
    assert_eq!(battery.bat_temp, None);
}

#[test]
fn non_object_payload_is_all_unknown() {
    let device = decode_device_info(&Json::Null);
    assert_eq!(device.device, None);
    assert_eq!(device.ver, None);
}

#[test]
fn fractional_and_integer_numbers_kept_as_text() {
    let v = obj(vec![
        ("soc", Json::Int(80)),
        ("bat_temp", Json::Num(b"25.5".to_vec())),
        ("bat_capacity", Json::Int(5120)),
    ]);
    let battery = decode_battery_status(&v);
    assert_eq!(battery.soc, Some(80));
    assert_eq!(battery.bat_temp, Some(b"25.5".to_vec()));
    assert_eq!(battery.bat_capacity, Some(b"5120".to_vec()));
}

#[test]
fn dashboard_without_device_is_configuration_error() {
    let store = DeviceStore::new();
    assert!(matches!(DashboardBuilder::new(&store), Err(Error::Configuration)));
}

#[test]
fn query_order_and_request_bytes() {
    let store = selected();
    let (host, port, builder) = DashboardBuilder::new(&store).unwrap();
    assert_eq!(host, b"192.168.1.9".to_vec());
    assert_eq!(port, 30000);
    assert_eq!(
        builder.next_request().unwrap(),
        br#"{"id":1,"method":"Marstek.GetDevice","params":{"ble_mac":"0"}}"#.to_vec()
    );
}

#[test]
fn unparsable_battery_payload_only_blanks_the_battery_section() {
    let store = selected();
    let (_, _, mut b) = DashboardBuilder::new(&store).unwrap();
    let methods: Vec<&[u8]> = vec![
        b"Marstek.GetDevice",
        b"ES.GetStatus",
        b"Bat.GetStatus",
        b"Wifi.GetStatus",
        b"ES.GetMode",
        b"EM.GetStatus",
    ];
    let mut step = 0;
    while let Some(req) = b.next_request() {
        // the request names the method of this step
        let needle = methods[step];
        assert!(req
            .windows(needle.len())
            .any(|w| w == needle));
        let reply = match step {
            0 => decode_reply(br#"{"id":1,"result":{"device":"VenusE","ver":3}}"#),
            1 => decode_reply(br#"{"id":1,"result":{"bat_soc":44,"pv_power":1.5}}"#),
            // Bat.GetStatus answers, but with a payload that does not fit
            2 => decode_reply(br#"{"id":1,"result":{"soc":"broken"}}"#),
            3 => decode_reply(br#"{"id":1,"result":{"ssid":"net","rssi":-55}}"#),
            4 => decode_reply(br#"{"id":1,"result":{"mode":"Auto"}}"#),
            _ => decode_reply(br#"{"id":1,"result":{"ct_state":1,"a_power":12.5}}"#),
        };
        b.apply_reply(reply).unwrap();
        step += 1;
    }
    assert_eq!(step, 6);
    let data = b.finish();
    // the battery section is all unknown ...
    assert_eq!(data.battery.soc, None);
    assert_eq!(data.battery.bat_temp, None);
    // ... while every other section reflects its own reply
    assert_eq!(data.device.device, Some(b"VenusE".to_vec()));
    assert_eq!(data.device.ver, Some(3));
    assert_eq!(data.energy.bat_soc, Some(44));
    assert_eq!(data.energy.pv_power, Some(b"1.5".to_vec()));
    assert_eq!(data.wifi.ssid, Some(b"net".to_vec()));
    assert_eq!(data.wifi.rssi, Some(-55));
    assert_eq!(data.mode.mode, Some(b"Auto".to_vec()));
    assert_eq!(data.meter.ct_state, Some(1));
    assert_eq!(data.meter.a_power, Some(b"12.5".to_vec()));
    // the timestamp is HH:MM:SS
    let ts = data.timestamp.as_bytes();
    assert_eq!(ts.len(), 8);
    assert_eq!(ts[2], b':');
    assert_eq!(ts[5], b':');
    for k in [0, 1, 3, 4, 6, 7] {
        assert!(ts[k].is_ascii_digit());
    }
}

#[test]
fn transport_failure_aborts_the_whole_aggregation() {
    let store = selected();
    let (_, _, mut b) = DashboardBuilder::new(&store).unwrap();
    // the first exchange succeeds
    let ok = decode_reply(br#"{"id":1,"result":{"device":"VenusE"}}"#);
    b.apply_reply(ok).unwrap();
    // the second times out: the aggregation fails and no snapshot exists
    let failure = Err(Error::Transport {
        timeout: true,
        message: "timed out waiting for reply".to_string(),
    });
    match b.apply_reply(failure) {
        Err(Error::Transport { timeout, .. }) => assert!(timeout),
        _ => panic!("expected the transport failure back"),
    }
}

#[test]
fn envelope_codec_failure_aborts_too() {
    let store = selected();
    let (_, _, mut b) = DashboardBuilder::new(&store).unwrap();
    let garbled = decode_reply(b"\xff\xfe not json");
    assert!(matches!(b.apply_reply(garbled), Err(Error::Codec)));
}
