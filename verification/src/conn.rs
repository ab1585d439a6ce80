use vstd::prelude::*;

use crate::error::{Error, Result};
use crate::ffi::native_len;
use crate::handle::{spec_close_outcome, Handle};

verus! {

/// The length handed to a native read or write for a buffer of `len` bytes.
pub open spec fn spec_native_len(len: usize) -> i32 {
    if len <= i32::MAX {
        len as i32
    } else {
        i32::MAX
    }
}

/// The native read or write is handed the whole buffer length whenever it
/// fits an `i32`, and `i32::MAX` otherwise: never more than the buffer, never
/// negative, and zero only for an empty buffer.
pub proof fn lemma_native_len(len: usize)
    ensures
        len <= i32::MAX ==> spec_native_len(len) as int == len as int,
        len > i32::MAX ==> spec_native_len(len) == i32::MAX,
        0 <= spec_native_len(len) as int <= len as int,
        spec_native_len(len) == 0 <==> len == 0,
{
}

/// The message of a failed read or write: the one the native layer
/// recorded, or `fallback` when it recorded none.
pub open spec fn spec_io_message(last_error: Option<String>, fallback: Seq<char>) -> Seq<char> {
    match last_error {
        Some(msg) => msg@,
        None => fallback,
    }
}

/// A failed read or write reports the recorded message verbatim, and the
/// fallback text only when none was recorded.
pub proof fn lemma_io_message(msg: String, fallback: Seq<char>)
    ensures
        spec_io_message(Some(msg), fallback) == msg@,
        spec_io_message(None, fallback) == fallback,
{
}

/// Native read status that marks a clean end of stream from the peer.
pub open spec fn read_eof_status() -> i32 {
    -2i32
}

/// The message of a read or write on a handle that has been closed.
pub open spec fn closed_handle_message() -> Seq<char> {
    "invalid handle (already closed?)"@
}

/// The end-of-stream status is -2 (and so no byte count), and a read or
/// write on a closed handle reports the invalid-handle message.
pub proof fn lemma_io_constants()
    ensures
        read_eof_status() == -2i32,
        read_eof_status() < 0,
        closed_handle_message() == "invalid handle (already closed?)"@,
{
}

impl Handle {
    /// Reads into a buffer of `buf_len` bytes. An empty buffer reads
    /// nothing and makes no native call; neither does a closed handle, which
    /// reports an invalid-handle error. Otherwise the native read gets at
    /// most `i32::MAX` bytes to fill: a count is returned as is, the end of
    /// stream status (-2) reads as 0 bytes, and only any other negative
    /// status reads the recorded message, failing with it (or "read failed").
    pub fn read_with<R, E>(&self, buf_len: usize, native_read: R, last_error: E) -> (r:
        core::result::Result<usize, String>) where
        R: FnOnce(i64, i32) -> i32,
        E: FnOnce(i64) -> Option<String>,

        requires
            buf_len != 0 && self@ != 0 ==> native_read.requires((self@, spec_native_len(buf_len))),
            forall|n: i32|
                buf_len != 0 && self@ != 0 && #[trigger] native_read.ensures(
                    (self@, spec_native_len(buf_len)),
                    n,
                ) && n < 0 && n != read_eof_status() ==> last_error.requires((self@,)),
        ensures
            buf_len == 0 ==> r == Ok::<usize, String>(0),
            buf_len != 0 && self@ == 0 ==> (r matches Err(msg) && msg@ == closed_handle_message()),
            buf_len != 0 && self@ != 0 ==> exists|n: i32|
                #[trigger] native_read.ensures((self@, spec_native_len(buf_len)), n) && {
                    &&& n == read_eof_status() ==> r == Ok::<usize, String>(0)
                    &&& n >= 0 ==> r == Ok::<usize, String>(n as usize)
                    &&& (n < 0 && n != read_eof_status()) ==> exists|m: Option<String>|
                        #[trigger] last_error.ensures((self@,), m)
                        && (r matches Err(msg) && msg@ == spec_io_message(m, "read failed"@))
                },
    {
        if buf_len == 0 {
            return Ok(0);
        }
        if self.is_closed() {
            return Err("invalid handle (already closed?)".to_owned());
        }
        let len = native_len(buf_len);
        let n = native_read(self.raw(), len);
        if n == -2 {
            return Ok(0);
        }
        if n < 0 {
            let m = last_error(self.raw());
            let msg = match m {
                Some(msg) => msg,
                None => "read failed".to_owned(),
            };
            return Err(msg);
        }
        Ok(n as usize)
    }

    /// Writes from a buffer of `buf_len` bytes. An empty buffer writes
    /// nothing and makes no native call; neither does a closed handle, which
    /// reports an invalid-handle error. Otherwise the native write gets at
    /// most `i32::MAX` bytes: a count is returned as is, and only a negative
    /// status reads the recorded message, failing with it (or "write failed").
    pub fn write_with<W, E>(&self, buf_len: usize, native_write: W, last_error: E) -> (r:
        core::result::Result<usize, String>) where
        W: FnOnce(i64, i32) -> i32,
        E: FnOnce(i64) -> Option<String>,

        requires
            buf_len != 0 && self@ != 0 ==> native_write.requires((self@, spec_native_len(buf_len))),
            forall|n: i32|
                buf_len != 0 && self@ != 0 && #[trigger] native_write.ensures(
                    (self@, spec_native_len(buf_len)),
                    n,
                ) && n < 0 ==> last_error.requires((self@,)),
        ensures
            buf_len == 0 ==> r == Ok::<usize, String>(0),
            buf_len != 0 && self@ == 0 ==> (r matches Err(msg) && msg@ == closed_handle_message()),
            buf_len != 0 && self@ != 0 ==> exists|n: i32|
                #[trigger] native_write.ensures((self@, spec_native_len(buf_len)), n) && {
                    &&& n >= 0 ==> r == Ok::<usize, String>(n as usize)
                    &&& n < 0 ==> exists|m: Option<String>|
                        #[trigger] last_error.ensures((self@,), m)
                        && (r matches Err(msg) && msg@ == spec_io_message(m, "write failed"@))
                },
    {
        if buf_len == 0 {
            return Ok(0);
        }
        if self.is_closed() {
            return Err("invalid handle (already closed?)".to_owned());
        }
        let len = native_len(buf_len);
        let n = native_write(self.raw(), len);
        if n < 0 {
            let m = last_error(self.raw());
            let msg = match m {
                Some(msg) => msg,
                None => "write failed".to_owned(),
            };
            return Err(msg);
        }
        Ok(n as usize)
    }

    /// Shuts down the writing half (sends a FIN) while reads stay possible.
    /// A closed handle fails with `InvalidHandle` and makes no native call;
    /// otherwise a nonzero native status fails with the error recorded for
    /// the handle, which is read only then.
    pub fn close_write_with<C, E>(&self, native_close_write: C, last_error: E) -> (r: Result<()>) where
        C: FnOnce(i64) -> i32,
        E: FnOnce(i64) -> Option<String>,

        requires
            self@ != 0 ==> native_close_write.requires((self@,)),
            forall|rc: i32|
                self@ != 0 && #[trigger] native_close_write.ensures((self@,), rc) && rc != 0
                    ==> last_error.requires((self@,)),
        ensures
            self@ == 0 ==> (r matches Err(e) && e == Error::InvalidHandle),
            self@ != 0 ==> exists|rc: i32| #[trigger] native_close_write.ensures((self@,), rc)
                && (rc == 0 ==> r is Ok)
                && (rc != 0 ==> exists|m: Option<String>|
                    #[trigger] last_error.ensures((self@,), m) && r == spec_close_outcome(rc, m)),
    {
        if self.is_closed() {
            return Err(Error::InvalidHandle);
        }
        let h = self.raw();
        let rc = native_close_write(h);
        if rc != 0 {
            let m = last_error(h);
            return Err(crate::error::take_error(m));
        }
        Ok(())
    }
}

/// A TCP-like connection tunneled over WireGuard, accepted by a server or
/// dialed by a client.
pub struct Conn {
    handle: Handle,
}

impl View for Conn {
    type V = i64;

    closed spec fn view(&self) -> i64 {
        self.handle@
    }
}

impl Conn {
    /// A connection for a handle the native layer handed out.
    pub(crate) fn from_handle(handle: i64) -> (c: Conn)
        ensures
            c@ == handle,
    {
        Conn { handle: Handle::from_raw(handle) }
    }

    /// The connection's handle.
    pub fn handle(&self) -> (h: &Handle)
        ensures
            h@ == self@,
    {
        &self.handle
    }

    /// Shuts down the writing half of the connection (see
    /// `Handle::close_write_with`).
    pub fn close_write<C, E>(&self, native_close_write: C, last_error: E) -> (r: Result<()>) where
        C: FnOnce(i64) -> i32,
        E: FnOnce(i64) -> Option<String>,

        requires
            self@ != 0 ==> native_close_write.requires((self@,)),
            forall|rc: i32|
                self@ != 0 && #[trigger] native_close_write.ensures((self@,), rc) && rc != 0
                    ==> last_error.requires((self@,)),
        ensures
            self@ == 0 ==> (r matches Err(e) && e == Error::InvalidHandle),
            self@ != 0 ==> exists|rc: i32| #[trigger] native_close_write.ensures((self@,), rc)
                && (rc == 0 ==> r is Ok)
                && (rc != 0 ==> exists|m: Option<String>|
                    #[trigger] last_error.ensures((self@,), m) && r == spec_close_outcome(rc, m)),
    {
        self.handle.close_write_with(native_close_write, last_error)
    }

    /// Closes the connection now, returning any error of the native close.
    pub fn close<C, E>(self, native_close: C, last_error: E) -> (r: Result<()>) where
        C: FnOnce(i64) -> i32,
        E: FnOnce(i64) -> Option<String>,

        requires
            self@ != 0 ==> native_close.requires((self@,)),
            forall|rc: i32|
                self@ != 0 && #[trigger] native_close.ensures((self@,), rc) && rc != 0
                    ==> last_error.requires((self@,)),
        ensures
            self@ == 0 ==> r is Ok,
            self@ != 0 ==> exists|rc: i32| #[trigger] native_close.ensures((self@,), rc)
                && (rc == 0 ==> r is Ok)
                && (rc != 0 ==> exists|m: Option<String>|
                    #[trigger] last_error.ensures((self@,), m) && r == spec_close_outcome(rc, m)),
    {
        let mut c = self;
        c.close_inner(native_close, last_error)
    }

    /// Closes the connection unless it is already closed; it is closed
    /// afterwards either way, so a later close makes no native call.
    pub fn close_inner<C, E>(&mut self, native_close: C, last_error: E) -> (r: Result<()>) where
        C: FnOnce(i64) -> i32,
        E: FnOnce(i64) -> Option<String>,

        requires
            old(self)@ != 0 ==> native_close.requires((old(self)@,)),
            forall|rc: i32|
                old(self)@ != 0 && #[trigger] native_close.ensures((old(self)@,), rc) && rc != 0
                    ==> last_error.requires((old(self)@,)),
        ensures
            final(self)@ == 0,
            old(self)@ == 0 ==> r is Ok,
            old(self)@ != 0 ==> exists|rc: i32| #[trigger] native_close.ensures((old(self)@,), rc)
                && (rc == 0 ==> r is Ok)
                && (rc != 0 ==> exists|m: Option<String>|
                    #[trigger] last_error.ensures((old(self)@,), m) && r == spec_close_outcome(rc, m)),
    {
        self.handle.close_with(native_close, last_error)
    }

    /// Splits off the connection's handle, to be shared by an independent
    /// reader and writer. This connection is left closed, so closing it
    /// makes no native call. The shared handle is closed once, by whichever
    /// half releases it first (`Handle::release_with`); the other half then
    /// reports invalid-handle errors (see `Handle::read_with`).
    pub fn split(&mut self) -> (h: Handle)
        ensures
            h@ == old(self)@,
            final(self)@ == 0,
    {
        self.handle.take()
    }
}

} // verus!
