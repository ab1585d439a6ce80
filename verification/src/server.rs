use vstd::prelude::*;
use vstd::utf8::encode_utf8;

use std::time::Duration;

use crate::conn::Conn;
use crate::error::{spec_take_error, take_error, Error, Result};
use crate::ffi::{c_string_bytes, has_nul, is_nul_error, take_string_or_err, to_cstring};
use crate::handle::{spec_close_outcome, Handle};
use crate::keys::PrivateKey;
use crate::time::{duration_millis, spec_timeout_ms, timeout_ms};

verus! {

/// Listens for clients over a WireGuard tunnel relayed through DERP.
///
/// Every native call goes through a function argument: the caller hands in
/// the native entry point (and `last_error`, which reads the message the
/// native layer recorded for a handle, or for slot 0 before a handle exists).
pub struct Server {
    handle: Handle,
}

impl View for Server {
    type V = i64;

    closed spec fn view(&self) -> i64 {
        self.handle@
    }
}

/// What `accept` returns once the native accept handed back `conn` and, for
/// a zero `conn`, the native layer had recorded `last_error`: a plain timeout
/// (no message) is `Ok(None)`, a recorded message is an error.
pub open spec fn spec_accept_outcome(conn: i64, last_error: Option<String>) -> Result<Option<i64>> {
    if conn != 0 {
        Ok(Some(conn))
    } else {
        match last_error {
            Some(msg) => Err(Error::Tailcat(msg)),
            None => Ok(None),
        }
    }
}

/// `accept` on a nonzero native handle yields that connection; on a zero
/// handle it is a plain timeout (`Ok(None)`) exactly when no message was
/// recorded, and otherwise fails with the recorded message, whatever it is.
pub proof fn lemma_accept_outcome(conn: i64, msg: String)
    ensures
        conn != 0 ==> spec_accept_outcome(conn, Some(msg)) == Ok::<Option<i64>, Error>(Some(conn)),
        conn != 0 ==> spec_accept_outcome(conn, None) == Ok::<Option<i64>, Error>(Some(conn)),
        spec_accept_outcome(0, Some(msg)) == Err::<Option<i64>, Error>(Error::Tailcat(msg)),
        spec_accept_outcome(0, None) == Ok::<Option<i64>, Error>(None),
        !(spec_accept_outcome(0, Some(msg)) is Ok),
{
}

impl Server {
    /// Creates a server with a fresh ephemeral key. A zero native handle
    /// fails with the error recorded in slot 0.
    pub fn new<C, E>(native_new: C, last_error: E) -> (r: Result<Server>) where
        C: FnOnce() -> i64,
        E: FnOnce(i64) -> Option<String>,

        requires
            native_new.requires(()),
            native_new.ensures((), 0i64) ==> last_error.requires((0i64,)),
        ensures
            match r {
                Ok(s) => s@ != 0 && native_new.ensures((), s@),
                Err(e) => native_new.ensures((), 0i64) && exists|m: Option<String>|
                    #[trigger] last_error.ensures((0i64,), m) && e == spec_take_error(m),
            },
    {
        let handle = Handle::open(native_new, 0, last_error)?;
        Ok(Server { handle })
    }

    /// Creates a server with a previously saved identity. The key's JSON is
    /// handed to the native call as a C string; JSON holding a NUL byte is
    /// refused before any native call.
    pub fn with_key<C, E>(key: &PrivateKey, native_new_with_key: C, last_error: E) -> (r: Result<
        Server,
    >) where
        C: FnOnce(Vec<u8>) -> i64,
        E: FnOnce(i64) -> Option<String>,

        requires
            forall|json: Vec<u8>|
                !has_nul(encode_utf8(key@)) && json@ == c_string_bytes(key@)
                    ==> #[trigger] native_new_with_key.requires((json,)),
            forall|json: Vec<u8>|
                !has_nul(encode_utf8(key@)) && json@ == c_string_bytes(key@)
                    && #[trigger] native_new_with_key.ensures((json,), 0i64)
                    ==> last_error.requires((0i64,)),
        ensures
            has_nul(encode_utf8(key@)) ==> (r matches Err(e) && is_nul_error(key@, e)),
            !has_nul(encode_utf8(key@)) ==> exists|json: Vec<u8>, raw: i64|
                json@ == c_string_bytes(key@) && #[trigger] native_new_with_key.ensures((json,), raw)
                && (raw != 0 ==> (r matches Ok(s) && s@ == raw))
                && (raw == 0 ==> exists|m: Option<String>|
                    #[trigger] last_error.ensures((0i64,), m) && (r matches Err(e) && e == spec_take_error(m))),
    {
        let json = to_cstring(key.as_str())?;
        let handle = Handle::open_with(json, native_new_with_key, 0, last_error)?;
        Ok(Server { handle })
    }

    /// Restricts the server to the given client public key (call before
    /// `start`, repeatedly to allow several). A key holding a NUL byte is
    /// refused before any native call; a nonzero native status fails with
    /// the error recorded for the server.
    pub fn allow_client<C, E>(&mut self, public_key: &str, native_allow: C, last_error: E) -> (r:
        Result<()>) where
        C: FnOnce(i64, Vec<u8>) -> i32,
        E: FnOnce(i64) -> Option<String>,

        requires
            forall|k: Vec<u8>|
                !has_nul(encode_utf8(public_key@)) && k@ == c_string_bytes(public_key@)
                    ==> #[trigger] native_allow.requires((old(self)@, k)),
            forall|k: Vec<u8>, rc: i32|
                !has_nul(encode_utf8(public_key@)) && k@ == c_string_bytes(public_key@)
                    && #[trigger] native_allow.ensures((old(self)@, k), rc) && rc != 0
                    ==> last_error.requires((old(self)@,)),
        ensures
            final(self)@ == old(self)@,
            has_nul(encode_utf8(public_key@)) ==> (r matches Err(e) && is_nul_error(public_key@, e)),
            !has_nul(encode_utf8(public_key@)) ==> exists|k: Vec<u8>, rc: i32|
                k@ == c_string_bytes(public_key@) && #[trigger] native_allow.ensures(
                    (old(self)@, k),
                    rc,
                ) && (rc == 0 ==> r is Ok) && (rc != 0 ==> exists|m: Option<String>|
                    #[trigger] last_error.ensures((old(self)@,), m) && r == spec_close_outcome(rc, m)),
    {
        let k = to_cstring(public_key)?;
        assert(!has_nul(encode_utf8(public_key@)));
        let h = self.handle.raw();
        assert(k@ == c_string_bytes(public_key@));
        assert(h == old(self)@);
        assert(native_allow.requires((old(self)@, k)));
        let rc = native_allow(h, k);
        if rc != 0 {
            let m = last_error(h);
            return Err(take_error(m));
        }
        Ok(())
    }

    /// Connects to the DERP relay and begins accepting clients. A nonzero
    /// native status fails with the error recorded for the server.
    pub fn start<C, E>(&mut self, native_start: C, last_error: E) -> (r: Result<()>) where
        C: FnOnce(i64) -> i32,
        E: FnOnce(i64) -> Option<String>,

        requires
            native_start.requires((old(self)@,)),
            forall|rc: i32|
                #[trigger] native_start.ensures((old(self)@,), rc) && rc != 0
                    ==> last_error.requires((old(self)@,)),
        ensures
            final(self)@ == old(self)@,
            exists|rc: i32| #[trigger] native_start.ensures((old(self)@,), rc)
                && (rc == 0 ==> r is Ok)
                && (rc != 0 ==> exists|m: Option<String>|
                    #[trigger] last_error.ensures((old(self)@,), m) && r == spec_close_outcome(rc, m)),
    {
        let h = self.handle.raw();
        let rc = native_start(h);
        if rc != 0 {
            let m = last_error(h);
            return Err(take_error(m));
        }
        Ok(())
    }

    /// The token clients connect with. No token from the native call fails
    /// with the error recorded for the server.
    pub fn conn_blob<C, E>(&self, native_conn_blob: C, last_error: E) -> (r: Result<String>) where
        C: FnOnce(i64) -> Option<String>,
        E: FnOnce(i64) -> Option<String>,

        requires
            native_conn_blob.requires((self@,)),
            native_conn_blob.ensures((self@,), None::<String>) ==> last_error.requires((self@,)),
        ensures
            exists|s: Option<String>| #[trigger] native_conn_blob.ensures((self@,), s) && match s {
                Some(x) => r == Ok::<String, Error>(x),
                None => exists|m: Option<String>|
                    #[trigger] last_error.ensures((self@,), m) && r == Err::<String, Error>(
                        spec_take_error(m),
                    ),
            },
    {
        let s = native_conn_blob(self.handle.raw());
        take_string_or_err(s, self.handle.raw(), last_error)
    }

    /// Waits for a client to connect, for at most `timeout` (in whole
    /// milliseconds, saturated at `i64::MAX`). A zero native handle with no
    /// recorded message is a plain timeout (`Ok(None)`); with one, an error.
    pub fn accept<C, E>(&self, timeout: Duration, native_accept: C, last_error: E) -> (r: Result<
        Option<Conn>,
    >) where
        C: FnOnce(i64, i64) -> i64,
        E: FnOnce(i64) -> Option<String>,

        requires
            native_accept.requires((self@, spec_timeout_ms(duration_millis(timeout)))),
            native_accept.ensures((self@, spec_timeout_ms(duration_millis(timeout))), 0i64)
                ==> last_error.requires((self@,)),
        ensures
            exists|conn: i64|
                #[trigger] native_accept.ensures((self@, spec_timeout_ms(duration_millis(timeout))), conn)
                && {
                    &&& conn != 0 ==> (r matches Ok(Some(c)) && c@ == conn)
                    &&& conn == 0 ==> exists|m: Option<String>|
                        #[trigger] last_error.ensures((self@,), m) && match spec_accept_outcome(0, m) {
                            Ok(_) => r matches Ok(None),
                            Err(e) => r == Err::<Option<Conn>, Error>(e),
                        }
                },
    {
        let ms = timeout_ms(timeout);
        let h = self.handle.raw();
        let conn = native_accept(h, ms);
        if conn == 0 {
            match last_error(h) {
                Some(msg) => return Err(Error::Tailcat(msg)),
                None => return Ok(None),
            }
        }
        Ok(Some(Conn::from_handle(conn)))
    }

    /// The server's identity and allow-list as one JSON string. No string
    /// from the native call fails with the error recorded for the server.
    pub fn state_json<C, E>(&self, native_state: C, last_error: E) -> (r: Result<String>) where
        C: FnOnce(i64) -> Option<String>,
        E: FnOnce(i64) -> Option<String>,

        requires
            native_state.requires((self@,)),
            native_state.ensures((self@,), None::<String>) ==> last_error.requires((self@,)),
        ensures
            exists|s: Option<String>| #[trigger] native_state.ensures((self@,), s) && match s {
                Some(x) => r == Ok::<String, Error>(x),
                None => exists|m: Option<String>|
                    #[trigger] last_error.ensures((self@,), m) && r == Err::<String, Error>(
                        spec_take_error(m),
                    ),
            },
    {
        let s = native_state(self.handle.raw());
        take_string_or_err(s, self.handle.raw(), last_error)
    }

    /// Shuts the server down (the native close drains in-flight data first).
    pub fn close<C, E>(self, native_close: C, last_error: E) -> (r: Result<()>) where
        C: FnOnce(i64) -> i32,
        E: FnOnce(i64) -> Option<String>,

        requires
            self@ != 0 ==> native_close.requires((self@,)),
            forall|rc: i32|
                self@ != 0 && #[trigger] native_close.ensures((self@,), rc) && rc != 0
                    ==> last_error.requires((self@,)),
        ensures
            self@ == 0 ==> r is Ok,
            self@ != 0 ==> exists|rc: i32| #[trigger] native_close.ensures((self@,), rc)
                && (rc == 0 ==> r is Ok)
                && (rc != 0 ==> exists|m: Option<String>|
                    #[trigger] last_error.ensures((self@,), m) && r == spec_close_outcome(rc, m)),
    {
        let mut s = self;
        s.close_inner(native_close, last_error)
    }

    /// Shuts the server down unless it is already shut down; it is closed
    /// afterwards either way, so a later close makes no native call.
    pub fn close_inner<C, E>(&mut self, native_close: C, last_error: E) -> (r: Result<()>) where
        C: FnOnce(i64) -> i32,
        E: FnOnce(i64) -> Option<String>,

        requires
            old(self)@ != 0 ==> native_close.requires((old(self)@,)),
            forall|rc: i32|
                old(self)@ != 0 && #[trigger] native_close.ensures((old(self)@,), rc) && rc != 0
                    ==> last_error.requires((old(self)@,)),
        ensures
            final(self)@ == 0,
            old(self)@ == 0 ==> r is Ok,
            old(self)@ != 0 ==> exists|rc: i32| #[trigger] native_close.ensures((old(self)@,), rc)
                && (rc == 0 ==> r is Ok)
                && (rc != 0 ==> exists|m: Option<String>|
                    #[trigger] last_error.ensures((old(self)@,), m) && r == spec_close_outcome(rc, m)),
    {
        self.handle.close_with(native_close, last_error)
    }
}

} // verus!
