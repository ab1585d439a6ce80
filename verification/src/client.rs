use vstd::prelude::*;
use vstd::utf8::encode_utf8;

use std::time::Duration;

use crate::conn::Conn;
use crate::error::{spec_take_error, take_error, Error, Result};
use crate::ffi::{c_string_bytes, has_nul, is_nul_error, take_string_or_err, to_cstring};
use crate::handle::{spec_close_outcome, Handle};
use crate::keys::PrivateKey;
use crate::time::{duration_millis, duration_of_millis, from_millis, spec_timeout_ms, timeout_ms};

verus! {

/// Connects to a server over a WireGuard tunnel relayed through DERP, given
/// the connection token the server printed. The tunnel is established on
/// first use (`ping` or `dial_tcp_port`).
///
/// Every native call goes through a function argument, as for `Server`.
pub struct Client {
    handle: Handle,
}

impl View for Client {
    type V = i64;

    closed spec fn view(&self) -> i64 {
        self.handle@
    }
}

impl Client {
    /// Creates a client for the server named by `conn_blob`, with a fresh
    /// ephemeral identity. A token holding a NUL byte is refused before any
    /// native call; a zero native handle fails with the error in slot 0.
    pub fn new<C, E>(conn_blob: &str, native_new: C, last_error: E) -> (r: Result<Client>) where
        C: FnOnce(Vec<u8>) -> i64,
        E: FnOnce(i64) -> Option<String>,

        requires
            forall|b: Vec<u8>|
                !has_nul(encode_utf8(conn_blob@)) && b@ == c_string_bytes(conn_blob@)
                    ==> #[trigger] native_new.requires((b,)),
            forall|b: Vec<u8>|
                !has_nul(encode_utf8(conn_blob@)) && b@ == c_string_bytes(conn_blob@)
                    && #[trigger] native_new.ensures((b,), 0i64) ==> last_error.requires((0i64,)),
        ensures
            has_nul(encode_utf8(conn_blob@)) ==> (r matches Err(e) && is_nul_error(conn_blob@, e)),
            !has_nul(encode_utf8(conn_blob@)) ==> exists|b: Vec<u8>, raw: i64|
                b@ == c_string_bytes(conn_blob@) && #[trigger] native_new.ensures((b,), raw)
                && (raw != 0 ==> (r matches Ok(c) && c@ == raw))
                && (raw == 0 ==> exists|m: Option<String>|
                    #[trigger] last_error.ensures((0i64,), m)
                    && (r matches Err(e) && e == spec_take_error(m))),
    {
        let c = to_cstring(conn_blob)?;
        let handle = Handle::open_with(c, native_new, 0, last_error)?;
        Ok(Client { handle })
    }

    /// Like `new`, with a previously saved identity. The token is checked
    /// first, then the key's JSON; either holding a NUL byte is refused
    /// before any native call.
    pub fn with_key<C, E>(conn_blob: &str, key: &PrivateKey, native_new_with_key: C, last_error: E) -> (r:
        Result<Client>) where
        C: FnOnce(Vec<u8>, Vec<u8>) -> i64,
        E: FnOnce(i64) -> Option<String>,

        requires
            forall|b: Vec<u8>, k: Vec<u8>|
                !has_nul(encode_utf8(conn_blob@)) && !has_nul(encode_utf8(key@))
                    && b@ == c_string_bytes(conn_blob@) && k@ == c_string_bytes(key@)
                    ==> #[trigger] native_new_with_key.requires((b, k)),
            forall|b: Vec<u8>, k: Vec<u8>|
                !has_nul(encode_utf8(conn_blob@)) && !has_nul(encode_utf8(key@))
                    && b@ == c_string_bytes(conn_blob@) && k@ == c_string_bytes(key@)
                    && #[trigger] native_new_with_key.ensures((b, k), 0i64)
                    ==> last_error.requires((0i64,)),
        ensures
            has_nul(encode_utf8(conn_blob@)) ==> (r matches Err(e) && is_nul_error(conn_blob@, e)),
            !has_nul(encode_utf8(conn_blob@)) && has_nul(encode_utf8(key@)) ==> (r matches Err(e)
                && is_nul_error(key@, e)),
            !has_nul(encode_utf8(conn_blob@)) && !has_nul(encode_utf8(key@)) ==> exists|
                b: Vec<u8>,
                k: Vec<u8>,
                raw: i64,
            |
                b@ == c_string_bytes(conn_blob@) && k@ == c_string_bytes(key@)
                && #[trigger] native_new_with_key.ensures((b, k), raw)
                && (raw != 0 ==> (r matches Ok(c) && c@ == raw))
                && (raw == 0 ==> exists|m: Option<String>|
                    #[trigger] last_error.ensures((0i64,), m)
                    && (r matches Err(e) && e == spec_take_error(m))),
    {
        let blob_c = to_cstring(conn_blob)?;
        let key_c = to_cstring(key.as_str())?;
        let raw = native_new_with_key(blob_c, key_c);
        if raw == 0 {
            let m = last_error(0);
            return Err(take_error(m));
        }
        Ok(Client { handle: Handle::from_raw(raw) })
    }

    /// This client's node public key (text form). No string from the native
    /// call fails with the error recorded for the client.
    pub fn public_key<C, E>(&self, native_public_key: C, last_error: E) -> (r: Result<String>) where
        C: FnOnce(i64) -> Option<String>,
        E: FnOnce(i64) -> Option<String>,

        requires
            native_public_key.requires((self@,)),
            native_public_key.ensures((self@,), None::<String>) ==> last_error.requires((self@,)),
        ensures
            exists|s: Option<String>| #[trigger] native_public_key.ensures((self@,), s) && match s {
                Some(x) => r == Ok::<String, Error>(x),
                None => exists|m: Option<String>|
                    #[trigger] last_error.ensures((self@,), m) && r == Err::<String, Error>(
                        spec_take_error(m),
                    ),
            },
    {
        let s = native_public_key(self.handle.raw());
        take_string_or_err(s, self.handle.raw(), last_error)
    }

    /// Performs the handshake and returns the round-trip latency. The native
    /// call gets the timeout in whole milliseconds, saturated at `i64::MAX`,
    /// and reports the latency in milliseconds, returned as
    /// `Duration::from_millis` of it; a negative report fails with the error
    /// recorded for the client, which is read only then.
    pub fn ping<C, E>(&self, timeout: Duration, native_ping: C, last_error: E) -> (r: Result<Duration>) where
        C: FnOnce(i64, i64) -> i64,
        E: FnOnce(i64) -> Option<String>,

        requires
            native_ping.requires((self@, spec_timeout_ms(duration_millis(timeout)))),
            forall|latency: i64|
                #[trigger] native_ping.ensures(
                    (self@, spec_timeout_ms(duration_millis(timeout))),
                    latency,
                ) && latency < 0 ==> last_error.requires((self@,)),
        ensures
            exists|latency: i64|
                #[trigger] native_ping.ensures((self@, spec_timeout_ms(duration_millis(timeout))), latency)
                && (latency >= 0 ==> (r matches Ok(d) && d == duration_of_millis(latency as u64)
                    && duration_millis(d) == latency as u128))
                && (latency < 0 ==> exists|m: Option<String>|
                    #[trigger] last_error.ensures((self@,), m)
                    && (r matches Err(e) && e == spec_take_error(m))),
    {
        let ms = timeout_ms(timeout);
        let h = self.handle.raw();
        let latency_ms = native_ping(h, ms);
        if latency_ms < 0 {
            let m = last_error(h);
            return Err(take_error(m));
        }
        Ok(from_millis(latency_ms as u64))
    }

    /// Opens a TCP connection to `port` on the server. The native call gets
    /// the port and the timeout in whole milliseconds (saturated at
    /// `i64::MAX`); a zero connection handle fails with the error recorded for
    /// the client.
    pub fn dial_tcp_port<C, E>(&self, port: u16, timeout: Duration, native_dial: C, last_error: E) -> (r:
        Result<Conn>) where
        C: FnOnce(i64, i32, i64) -> i64,
        E: FnOnce(i64) -> Option<String>,

        requires
            native_dial.requires((self@, port as i32, spec_timeout_ms(duration_millis(timeout)))),
            native_dial.ensures((self@, port as i32, spec_timeout_ms(duration_millis(timeout))), 0i64)
                ==> last_error.requires((self@,)),
        ensures
            exists|conn: i64|
                #[trigger] native_dial.ensures(
                    (self@, port as i32, spec_timeout_ms(duration_millis(timeout))),
                    conn,
                ) && (conn != 0 ==> (r matches Ok(c) && c@ == conn)) && (conn == 0 ==> exists|
                    m: Option<String>,
                | #[trigger] last_error.ensures((self@,), m) && (r matches Err(e) && e
                    == spec_take_error(m))),
    {
        let ms = timeout_ms(timeout);
        let h = self.handle.raw();
        let conn = native_dial(h, port as i32, ms);
        if conn == 0 {
            let m = last_error(h);
            return Err(take_error(m));
        }
        Ok(Conn::from_handle(conn))
    }

    /// Shuts the client down.
    pub fn close<C, E>(self, native_close: C, last_error: E) -> (r: Result<()>) where
        C: FnOnce(i64) -> i32,
        E: FnOnce(i64) -> Option<String>,

        requires
            self@ != 0 ==> native_close.requires((self@,)),
            forall|rc: i32|
                self@ != 0 && #[trigger] native_close.ensures((self@,), rc) && rc != 0
                    ==> last_error.requires((self@,)),
        ensures
            self@ == 0 ==> r is Ok,
            self@ != 0 ==> exists|rc: i32| #[trigger] native_close.ensures((self@,), rc)
                && (rc == 0 ==> r is Ok)
                && (rc != 0 ==> exists|m: Option<String>|
                    #[trigger] last_error.ensures((self@,), m) && r == spec_close_outcome(rc, m)),
    {
        let mut c = self;
        c.close_inner(native_close, last_error)
    }

    /// Shuts the client down unless it is already shut down; it is closed
    /// afterwards either way, so a later close makes no native call.
    pub fn close_inner<C, E>(&mut self, native_close: C, last_error: E) -> (r: Result<()>) where
        C: FnOnce(i64) -> i32,
        E: FnOnce(i64) -> Option<String>,

        requires
            old(self)@ != 0 ==> native_close.requires((old(self)@,)),
            forall|rc: i32|
                old(self)@ != 0 && #[trigger] native_close.ensures((old(self)@,), rc) && rc != 0
                    ==> last_error.requires((old(self)@,)),
        ensures
            final(self)@ == 0,
            old(self)@ == 0 ==> r is Ok,
            old(self)@ != 0 ==> exists|rc: i32| #[trigger] native_close.ensures((old(self)@,), rc)
                && (rc == 0 ==> r is Ok)
                && (rc != 0 ==> exists|m: Option<String>|
                    #[trigger] last_error.ensures((old(self)@,), m) && r == spec_close_outcome(rc, m)),
    {
        self.handle.close_with(native_close, last_error)
    }
}

} // verus!
