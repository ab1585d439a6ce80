use std::cell::Cell;
use std::time::Duration;

use p2p_lib::{resolve_conn_blob, Client, Error, Handle, PrivateKey, Server};

fn no_error(_: i64) -> Option<String> {
    None
}

fn never_close(_: i64) -> i32 {
    panic!("native close called on a closed handle")
}

fn never_fetch(_: i64) -> Option<String> {
    panic!("error fetched although the call succeeded")
}

#[test]
fn server_new_success() {
    let s = Server::new(|| 7, never_fetch).unwrap();
    assert_eq!(s.close(|h| if h == 7 { 0 } else { 1 }, never_fetch).is_ok(), true);
}

#[test]
fn server_new_failure_reads_slot_zero() {
    let slot = Cell::new(-1i64);
    let r = Server::new(
        || 0,
        |h| {
            slot.set(h);
            Some(String::from("no relay"))
        },
    );
    assert!(matches!(r, Err(Error::Tailcat(m)) if m == "no relay"));
    assert_eq!(slot.get(), 0);
}

#[test]
fn server_new_failure_without_message() {
    assert!(matches!(Server::new(|| 0, no_error), Err(Error::InvalidHandle)));
}

#[test]
fn server_with_key_passes_c_string() {
    let key = PrivateKey::from_json(String::from("{}"));
    let seen = Cell::new(false);
    let s = Server::with_key(
        &key,
        |json: Vec<u8>| {
            assert_eq!(json, vec![b'{', b'}', 0]);
            seen.set(true);
            5
        },
        never_fetch,
    );
    assert!(s.is_ok());
    assert!(seen.get());
}

#[test]
fn server_with_key_refuses_nul_before_native_call() {
    let key = PrivateKey::from_json(String::from("a\0"));
    let r = Server::with_key(&key, |_: Vec<u8>| -> i64 { panic!("native call") }, never_fetch);
    assert!(matches!(r, Err(Error::InvalidString(e)) if e.position == 1));
}

#[test]
fn server_allow_client_and_start() {
    let mut s = Server::new(|| 3, never_fetch).unwrap();
    let r = s.allow_client(
        "nodekey:ab",
        |h, k: Vec<u8>| {
            assert_eq!(h, 3);
            assert_eq!(k, b"nodekey:ab\0".to_vec());
            0
        },
        never_fetch,
    );
    assert!(r.is_ok());
    let r = s.allow_client("k", |_, _| 1, |h| Some(format!("bad key on {}", h)));
    assert!(matches!(r, Err(Error::Tailcat(m)) if m == "bad key on 3"));
    assert!(s.start(|h| if h == 3 { 0 } else { 9 }, never_fetch).is_ok());
    assert!(matches!(s.start(|_| -1, no_error), Err(Error::InvalidHandle)));
}

#[test]
fn server_conn_blob_and_state() {
    let s = Server::new(|| 4, never_fetch).unwrap();
    assert_eq!(s.conn_blob(|_| Some(String::from("tc123")), never_fetch).unwrap(), "tc123");
    assert!(matches!(s.conn_blob(|_| None, |_| Some(String::from("not started"))),
        Err(Error::Tailcat(m)) if m == "not started"));
    assert_eq!(s.state_json(|_| Some(String::from("{\"a\":1}")), never_fetch).unwrap(), "{\"a\":1}");
    assert!(matches!(s.state_json(|_| None, no_error), Err(Error::InvalidHandle)));
}

#[test]
fn server_accept_outcomes() {
    let s = Server::new(|| 4, never_fetch).unwrap();
    let c = s
        .accept(Duration::from_secs(60), |h, ms| {
            assert_eq!((h, ms), (4, 60_000));
            11
        }, never_fetch)
        .unwrap()
        .unwrap();
    assert_eq!(c.handle().raw(), 11);
    assert!(matches!(s.accept(Duration::from_secs(1), |_, _| 0, no_error), Ok(None)));
    assert!(matches!(
        s.accept(Duration::from_secs(1), |_, _| 0, |_| Some(String::from("closed"))),
        Err(Error::Tailcat(m)) if m == "closed"
    ));
}

#[test]
fn server_close_inner_runs_native_close_once() {
    let mut s = Server::new(|| 4, never_fetch).unwrap();
    let calls = Cell::new(0);
    assert!(s.close_inner(|_| { calls.set(calls.get() + 1); 0 }, never_fetch).is_ok());
    assert!(s.close_inner(never_close, never_fetch).is_ok());
    assert!(s.close(never_close, never_fetch).is_ok());
    assert_eq!(calls.get(), 1);
}

#[test]
fn server_close_failure_reports_error() {
    let s = Server::new(|| 4, never_fetch).unwrap();
    let r = s.close(|_| 1, |h| Some(format!("drain failed on {}", h)));
    assert!(matches!(r, Err(Error::Tailcat(m)) if m == "drain failed on 4"));
}

#[test]
fn client_new_and_with_key() {
    let c = Client::new("tc1", |b: Vec<u8>| {
        assert_eq!(b, b"tc1\0".to_vec());
        8
    }, never_fetch);
    assert!(c.is_ok());
    assert!(matches!(Client::new("tc\0", |_: Vec<u8>| -> i64 { panic!("native call") }, never_fetch),
        Err(Error::InvalidString(e)) if e.position == 2));
    assert!(matches!(Client::new("tc1", |_: Vec<u8>| 0, no_error), Err(Error::InvalidHandle)));
    let key = PrivateKey::from_json(String::from("{}"));
    let c = Client::with_key("tc1", &key, |b: Vec<u8>, k: Vec<u8>| {
        assert_eq!(b, b"tc1\0".to_vec());
        assert_eq!(k, b"{}\0".to_vec());
        9
    }, never_fetch);
    assert!(c.is_ok());
    let bad_key = PrivateKey::from_json(String::from("\0"));
    assert!(matches!(Client::with_key("t\0", &bad_key, |_: Vec<u8>, _: Vec<u8>| -> i64 { panic!() }, never_fetch),
        Err(Error::InvalidString(e)) if e.position == 1));
    assert!(matches!(Client::with_key("tc", &bad_key, |_: Vec<u8>, _: Vec<u8>| -> i64 { panic!() }, never_fetch),
        Err(Error::InvalidString(e)) if e.position == 0));
}

#[test]
fn client_ping_and_dial() {
    let c = Client::new("tc", |_: Vec<u8>| 8, never_fetch).unwrap();
    let d = c.ping(Duration::from_secs(10), |h, ms| {
        assert_eq!((h, ms), (8, 10_000));
        42
    }, never_fetch).unwrap();
    assert_eq!(d, Duration::from_millis(42));
    assert!(matches!(c.ping(Duration::from_secs(10), |_, _| -1, |_| Some(String::from("timeout"))),
        Err(Error::Tailcat(m)) if m == "timeout"));
    let conn = c.dial_tcp_port(80, Duration::from_millis(1500), |h, port, ms| {
        assert_eq!((h, port, ms), (8, 80, 1500));
        21
    }, never_fetch).unwrap();
    assert_eq!(conn.handle().raw(), 21);
    assert!(matches!(c.dial_tcp_port(0, Duration::from_secs(1), |_, _, _| 0, no_error),
        Err(Error::InvalidHandle)));
    assert_eq!(c.public_key(|h| Some(format!("nodekey:{}", h)), never_fetch).unwrap(), "nodekey:8");
    assert!(c.close(|_| 0, never_fetch).is_ok());
}

#[test]
fn client_close_inner_twice() {
    let mut c = Client::new("tc", |_: Vec<u8>| 8, never_fetch).unwrap();
    assert!(matches!(c.close_inner(|_| 2, no_error), Err(Error::InvalidHandle)));
    assert!(c.close_inner(never_close, never_fetch).is_ok());
}

#[test]
fn private_key_native_calls() {
    let k = PrivateKey::generate(|| Some(String::from("{\"k\":1}")), never_fetch).unwrap();
    assert_eq!(k.to_json(), "{\"k\":1}");
    assert!(matches!(PrivateKey::generate(|| None, |h| Some(format!("slot {}", h))),
        Err(Error::Tailcat(m)) if m == "slot 0"));
    let p = k.public_key(|json: Vec<u8>| {
        assert_eq!(json, b"{\"k\":1}\0".to_vec());
        Some(String::from("nodekey:1"))
    }, never_fetch);
    assert_eq!(p.unwrap(), "nodekey:1");
    let bad = PrivateKey::from_json(String::from("x\0"));
    assert!(matches!(bad.public_key(|_: Vec<u8>| -> Option<String> { panic!() }, never_fetch),
        Err(Error::InvalidString(_))));
}

#[test]
fn resolve_conn_blob_outcomes() {
    let r = resolve_conn_blob("tc1", |b: Vec<u8>| {
        assert_eq!(b, b"tc1\0".to_vec());
        Some(String::from("tcfull"))
    }, never_fetch);
    assert_eq!(r.unwrap(), "tcfull");
    assert!(matches!(resolve_conn_blob("tc1", |_: Vec<u8>| None, no_error), Err(Error::InvalidHandle)));
    assert!(matches!(resolve_conn_blob("\0", |_: Vec<u8>| -> Option<String> { panic!() }, no_error),
        Err(Error::InvalidString(_))));
}

#[test]
fn handle_release_closes_once() {
    let mut h = Handle::from_raw(5);
    assert_eq!(h.release_with(|x| if x == 5 { 0 } else { 3 }), Some(0));
    assert!(h.is_closed());
    assert_eq!(h.release_with(never_close), None);
}
