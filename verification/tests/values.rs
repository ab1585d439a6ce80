use std::time::Duration;

use p2p_lib::{native_len, take_error, timeout_ms, to_cstring, Error, PeerPath, PrivateKey};

#[test]
fn peer_path_direct() {
    assert_eq!(PeerPath::from_c_str("direct"), PeerPath::Direct);
}

#[test]
fn peer_path_relay() {
    assert_eq!(PeerPath::from_c_str("relay"), PeerPath::Relay);
}

#[test]
fn peer_path_other_texts_are_unknown() {
    assert_eq!(PeerPath::from_c_str(""), PeerPath::Unknown);
    assert_eq!(PeerPath::from_c_str("Direct"), PeerPath::Unknown);
    assert_eq!(PeerPath::from_c_str("directx"), PeerPath::Unknown);
    assert_eq!(PeerPath::from_c_str("rela"), PeerPath::Unknown);
    assert_eq!(PeerPath::from_c_str("unknown"), PeerPath::Unknown);
}

#[test]
fn private_key_json_round_trip() {
    let json = String::from("{\"privateKey\":\"privkey:abc\"}");
    let key = PrivateKey::from_json(json.clone());
    assert_eq!(key.to_json(), json.as_str());
    assert_eq!(key.as_str(), json.as_str());
}

#[test]
fn private_key_equality_follows_json() {
    let a = PrivateKey::from_json(String::from("{}"));
    let b = PrivateKey::from_json(String::from("{}"));
    let c = PrivateKey::from_json(String::from("{\"x\":1}"));
    assert!(a == b);
    assert!(a != c);
    assert!(a.clone() == a);
}

#[test]
fn to_cstring_appends_terminator() {
    assert_eq!(to_cstring("abc").unwrap(), vec![b'a', b'b', b'c', 0]);
    assert_eq!(to_cstring("").unwrap(), vec![0]);
    assert_eq!(to_cstring("é").unwrap(), vec![0xc3, 0xa9, 0]);
}

#[test]
fn to_cstring_refuses_interior_nul() {
    match to_cstring("a\0b\0") {
        Err(Error::InvalidString(e)) => {
            assert_eq!(e.nul_position(), 1);
            assert_eq!(e.into_vec(), vec![b'a', 0, b'b', 0]);
        }
        other => panic!("unexpected {:?}", other),
    }
}

#[test]
fn take_error_reports_recorded_message() {
    assert!(matches!(take_error(Some(String::from("boom"))), Error::Tailcat(m) if m == "boom"));
    assert!(matches!(take_error(None), Error::InvalidHandle));
}

#[test]
fn native_len_saturates() {
    assert_eq!(native_len(0), 0);
    assert_eq!(native_len(4096), 4096);
    assert_eq!(native_len(i32::MAX as usize), i32::MAX);
    assert_eq!(native_len(usize::MAX), i32::MAX);
}

#[test]
fn timeout_ms_whole_milliseconds() {
    assert_eq!(timeout_ms(Duration::from_secs(60)), 60_000);
    assert_eq!(timeout_ms(Duration::from_micros(1_999)), 1);
    assert_eq!(timeout_ms(Duration::ZERO), 0);
}

#[test]
fn timeout_ms_saturates() {
    assert_eq!(timeout_ms(Duration::MAX), i64::MAX);
}
