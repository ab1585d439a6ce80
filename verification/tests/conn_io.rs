use std::time::Duration;

use p2p_lib::{Conn, Error, Server};

fn never_fetch(_: i64) -> Option<String> {
    panic!("error fetched although the call succeeded")
}

fn conn(raw: i64) -> Conn {
    let s = Server::new(|| 1, never_fetch).unwrap();
    s.accept(Duration::from_secs(1), move |_, _| raw, never_fetch).unwrap().unwrap()
}

#[test]
fn read_empty_buffer_makes_no_call() {
    let c = conn(6);
    let r = c.handle().read_with(0, |_, _| -> i32 { panic!("native read") }, never_fetch);
    assert_eq!(r, Ok(0));
}

#[test]
fn read_counts_eof_and_errors() {
    let c = conn(6);
    assert_eq!(c.handle().read_with(100, |h, len| {
        assert_eq!((h, len), (6, 100));
        10
    }, never_fetch), Ok(10));
    assert_eq!(c.handle().read_with(100, |_, _| -2, never_fetch), Ok(0));
    assert_eq!(c.handle().read_with(100, |_, _| -1, |_| None), Err(String::from("read failed")));
    assert_eq!(c.handle().read_with(100, |_, _| -3, |_| Some(String::from("reset"))),
        Err(String::from("reset")));
}

#[test]
fn read_length_is_clamped() {
    let c = conn(6);
    let r = c.handle().read_with(usize::MAX, |_, len| {
        assert_eq!(len, i32::MAX);
        0
    }, never_fetch);
    assert_eq!(r, Ok(0));
}

#[test]
fn write_counts_and_errors() {
    let c = conn(6);
    assert_eq!(c.handle().write_with(0, |_, _| -> i32 { panic!("native write") }, never_fetch), Ok(0));
    assert_eq!(c.handle().write_with(5, |h, len| {
        assert_eq!((h, len), (6, 5));
        5
    }, never_fetch), Ok(5));
    assert_eq!(c.handle().write_with(5, |_, _| -2, |_| None), Err(String::from("write failed")));
    assert_eq!(c.handle().write_with(5, |_, _| -1, |_| Some(String::from("broken pipe"))),
        Err(String::from("broken pipe")));
}

#[test]
fn close_write_outcomes() {
    let c = conn(6);
    assert!(c.close_write(|h| if h == 6 { 0 } else { 1 }, never_fetch).is_ok());
    assert!(matches!(c.close_write(|_| 1, |h| Some(format!("shutdown {}", h))),
        Err(Error::Tailcat(m)) if m == "shutdown 6"));
}

#[test]
fn split_leaves_conn_closed_and_shares_handle() {
    let mut c = conn(6);
    let mut shared = c.split();
    assert_eq!(shared.raw(), 6);
    assert!(c.close_inner(|_| -> i32 { panic!("closed twice") }, never_fetch).is_ok());
    assert_eq!(shared.release_with(|h| if h == 6 { 0 } else { 1 }), Some(0));
    assert_eq!(shared.release_with(|_| -> i32 { panic!("closed twice") }), None);
}

#[test]
fn conn_close_once() {
    let mut c = conn(6);
    assert!(c.close_inner(|_| 0, never_fetch).is_ok());
    assert!(c.close(|_| -> i32 { panic!("closed twice") }, never_fetch).is_ok());
}

#[test]
fn closed_handle_io_makes_no_call() {
    let mut c = conn(6);
    let mut shared = c.split();
    assert_eq!(shared.release_with(|_| 0), Some(0));
    assert_eq!(shared.read_with(8, |_, _| -> i32 { panic!("native read") }, never_fetch),
        Err(String::from("invalid handle (already closed?)")));
    assert_eq!(shared.write_with(8, |_, _| -> i32 { panic!("native write") }, never_fetch),
        Err(String::from("invalid handle (already closed?)")));
    assert_eq!(shared.read_with(0, |_, _| -> i32 { panic!("native read") }, never_fetch), Ok(0));
    assert!(matches!(shared.close_write_with(|_| -> i32 { panic!("native shutdown") }, never_fetch),
        Err(Error::InvalidHandle)));
    assert!(matches!(c.close_write(|_| -> i32 { panic!("native shutdown") }, never_fetch),
        Err(Error::InvalidHandle)));
}

#[test]
fn write_success_does_not_read_error() {
    let c = conn(6);
    assert_eq!(c.handle().write_with(3, |_, _| 0, never_fetch), Ok(0));
}
