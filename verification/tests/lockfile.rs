use plc_tray::lockfile::read_lock;

#[test]
fn read_lock_absent_file() {
    assert!(read_lock(None).is_none());
}

#[test]
fn read_lock_unparseable() {
    assert!(read_lock(Some("not json".to_string())).is_none());
    assert!(read_lock(Some("".to_string())).is_none());
    assert!(read_lock(Some("{\"port\": 51234".to_string())).is_none());
}

#[test]
fn read_lock_port_zero() {
    assert!(read_lock(Some("{\"port\": 0, \"token\": \"abc\"}".to_string())).is_none());
}

#[test]
fn read_lock_port_missing() {
    assert!(read_lock(Some("{\"token\": \"abc\"}".to_string())).is_none());
}

#[test]
fn read_lock_port_not_an_unsigned_integer() {
    assert!(read_lock(Some("{\"port\": \"51234\"}".to_string())).is_none());
    assert!(read_lock(Some("{\"port\": -5}".to_string())).is_none());
}

#[test]
fn read_lock_valid_record() {
    let r = read_lock(Some("{\"port\": 51234, \"token\": \"abc\"}".to_string())).unwrap();
    assert_eq!(r.port, 51234);
    assert_eq!(r.token, "abc");
}

#[test]
fn read_lock_token_defaults_to_empty() {
    let r = read_lock(Some("{\"port\": 8080}".to_string())).unwrap();
    assert_eq!(r.port, 8080);
    assert_eq!(r.token, "");
}

#[test]
fn read_lock_token_not_a_string_defaults_to_empty() {
    let r = read_lock(Some("{\"port\": 8080, \"token\": 7}".to_string())).unwrap();
    assert_eq!(r.port, 8080);
    assert_eq!(r.token, "");
}

#[test]
fn read_lock_port_narrows_to_sixteen_bits() {
    let r = read_lock(Some("{\"port\": 65537}".to_string())).unwrap();
    assert_eq!(r.port, 1);
    assert!(read_lock(Some("{\"port\": 65536}".to_string())).is_none());
}

#[test]
fn read_lock_empty_token_is_valid() {
    let r = read_lock(Some("{\"port\": 1, \"token\": \"\"}".to_string())).unwrap();
    assert_eq!(r.port, 1);
    assert_eq!(r.token, "");
}
