use marstek_core::error::Error;
use marstek_core::store::DeviceStore;

#[test]
fn select_then_current() {
    let mut store = DeviceStore::new();
    store.set_device(b"192.168.1.50".to_vec(), Some(1234));
    let (host, port) = store.get_device();
    assert_eq!(host, Some(b"192.168.1.50".to_vec()));
    assert_eq!(port, 1234);
}

#[test]
fn select_defaults_port() {
    let mut store = DeviceStore::new();
    store.set_device(b"10.0.0.7".to_vec(), None);
    let (host, port) = store.get_device();
    assert_eq!(host, Some(b"10.0.0.7".to_vec()));
    assert_eq!(port, 30000);
}

#[test]
fn select_overwrites() {
    let mut store = DeviceStore::new();
    store.set_device(b"10.0.0.7".to_vec(), Some(999));
    store.set_device(b"10.0.0.8".to_vec(), None);
    let (host, port) = store.get_device();
    assert_eq!(host, Some(b"10.0.0.8".to_vec()));
    assert_eq!(port, 30000);
}

#[test]
fn fresh_store_has_no_device() {
    let store = DeviceStore::new();
    let (host, port) = store.get_device();
    assert_eq!(host, None);
    assert_eq!(port, 30000);
}

#[test]
fn require_target_without_device_is_configuration_error() {
    let store = DeviceStore::new();
    assert!(matches!(store.require_target(), Err(Error::Configuration)));
}

#[test]
fn require_target_with_device() {
    let mut store = DeviceStore::new();
    store.set_device(b"host".to_vec(), Some(40000));
    let (h, p) = store.require_target().unwrap();
    assert_eq!(h, b"host".to_vec());
    assert_eq!(p, 40000);
}
