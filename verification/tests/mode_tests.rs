use marstek_core::error::{Error, ValidationError};
use marstek_core::json::Json;
use marstek_core::mode::{build_mode_config, set_mode, set_mode_result};
use marstek_core::store::DeviceStore;

fn obj(pairs: Vec<(&str, Json)>) -> Json {
    Json::Obj(
        pairs
            .into_iter()
            .map(|(k, v)| (k.as_bytes().to_vec(), v))
            .collect(),
    )
}

fn selected() -> DeviceStore {
    let mut store = DeviceStore::new();
    store.set_device(b"192.168.1.9".to_vec(), None);
    store
}

#[test]
fn unknown_mode_is_validation_error_naming_it() {
    let store = selected();
    match set_mode(&store, &b"Bogus".to_vec(), None) {
        Err(Error::Validation(ValidationError::UnknownMode(m))) => {
            assert_eq!(m, b"Bogus".to_vec());
        }
        _ => panic!("expected unknown-mode validation error"),
    }
}

#[test]
fn manual_without_config_is_distinct_error() {
    let store = selected();
    match set_mode(&store, &b"Manual".to_vec(), None) {
        Err(Error::Validation(ValidationError::ConfigRequired(k))) => {
            assert_eq!(k, b"manual_cfg".to_vec());
        }
        _ => panic!("expected config-required validation error"),
    }
}

#[test]
fn manual_with_empty_config_is_missing_manual_cfg() {
    let store = selected();
    let cfg = obj(vec![]);
    match set_mode(&store, &b"Manual".to_vec(), Some(&cfg)) {
        Err(Error::Validation(ValidationError::MissingCfg(k))) => {
            assert_eq!(k, b"manual_cfg".to_vec());
        }
        _ => panic!("expected missing-cfg validation error"),
    }
}

#[test]
fn passive_requires_passive_cfg() {
    let store = selected();
    let cfg = obj(vec![("manual_cfg", obj(vec![]))]);
    match set_mode(&store, &b"Passive".to_vec(), Some(&cfg)) {
        Err(Error::Validation(ValidationError::MissingCfg(k))) => {
            assert_eq!(k, b"passive_cfg".to_vec());
        }
        _ => panic!("expected missing-cfg validation error"),
    }
}

#[test]
fn set_mode_without_device_is_configuration_error() {
    let store = DeviceStore::new();
    assert!(matches!(
        set_mode(&store, &b"Auto".to_vec(), None),
        Err(Error::Configuration)
    ));
    // the device check comes before validation
    assert!(matches!(
        set_mode(&store, &b"Bogus".to_vec(), None),
        Err(Error::Configuration)
    ));
}

#[test]
fn auto_builds_exact_payload() {
    let store = selected();
    let (host, port, req) = set_mode(&store, &b"Auto".to_vec(), None).unwrap();
    assert_eq!(host, b"192.168.1.9".to_vec());
    assert_eq!(port, 30000);
    assert_eq!(
        req,
        br#"{"id":1,"method":"ES.SetMode","params":{"id":0,"config":{"mode":"Auto","auto_cfg":{"enable":1}}}}"#.to_vec()
    );
}

#[test]
fn ai_builds_exact_payload() {
    let store = selected();
    let (_, _, req) = set_mode(&store, &b"AI".to_vec(), None).unwrap();
    assert_eq!(
        req,
        br#"{"id":1,"method":"ES.SetMode","params":{"id":0,"config":{"mode":"AI","ai_cfg":{"enable":1}}}}"#.to_vec()
    );
}

#[test]
fn manual_passes_sub_config_through() {
    let store = selected();
    let cfg = obj(vec![(
        "manual_cfg",
        obj(vec![("power", Json::Int(800)), ("enable", Json::Int(1))]),
    )]);
    let (_, _, req) = set_mode(&store, &b"Manual".to_vec(), Some(&cfg)).unwrap();
    assert_eq!(
        req,
        br#"{"id":1,"method":"ES.SetMode","params":{"id":0,"config":{"mode":"Manual","manual_cfg":{"power":800,"enable":1}}}}"#.to_vec()
    );
}

#[test]
fn build_mode_config_auto_ignores_config() {
    let cfg = obj(vec![("junk", Json::Int(1))]);
    assert!(build_mode_config(&b"Auto".to_vec(), Some(&cfg)).is_ok());
}

#[test]
fn reply_without_set_result_reads_as_success() {
    assert!(set_mode_result(&obj(vec![])));
    assert!(set_mode_result(&Json::Null));
}

#[test]
fn set_result_returned_verbatim() {
    assert!(!set_mode_result(&obj(vec![("set_result", Json::Bool(false))])));
    assert!(set_mode_result(&obj(vec![("set_result", Json::Bool(true))])));
    // a non-boolean set_result reads as success, as absence does
    assert!(set_mode_result(&obj(vec![("set_result", Json::Int(0))])));
}
