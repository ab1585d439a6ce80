use vstd::prelude::*;

use crate::error::{spec_take_error, take_error, Error, Result};

verus! {

/// A native handle: nonzero while the object it names is open, zero once
/// it has been closed (or was never opened).
pub struct Handle {
    raw: i64,
}

impl View for Handle {
    type V = i64;

    closed spec fn view(&self) -> i64 {
        self.raw
    }
}

/// What `Handle::close_with` reports once the native close returned `rc`
/// and, where it failed, the native layer recorded `last_error`.
pub open spec fn spec_close_outcome(rc: i32, last_error: Option<String>) -> Result<()> {
    if rc == 0 {
        Ok(())
    } else {
        Err(spec_take_error(last_error))
    }
}

/// A native status of zero is success; every other status, negative or
/// positive, is an error: the recorded message when there is one,
/// `InvalidHandle` otherwise.
pub proof fn lemma_status_outcome(rc: i32, msg: String)
    ensures
        spec_close_outcome(0, Some(msg)) == Ok::<(), Error>(()),
        spec_close_outcome(0, None) == Ok::<(), Error>(()),
        rc != 0 ==> spec_close_outcome(rc, Some(msg)) is Err,
        rc != 0 ==> spec_close_outcome(rc, None) is Err,
        rc != 0 ==> spec_close_outcome(rc, Some(msg)) == Err::<(), Error>(Error::Tailcat(msg)),
        rc != 0 ==> spec_close_outcome(rc, None) == Err::<(), Error>(Error::InvalidHandle),
{
}

impl Handle {
    /// Wraps a raw handle as the native layer handed it out.
    pub fn from_raw(raw: i64) -> (h: Handle)
        ensures
            h@ == raw,
    {
        Handle { raw }
    }

    /// The raw value to hand to native calls.
    pub fn raw(&self) -> (r: i64)
        ensures
            r == self@,
    {
        self.raw
    }

    /// Whether the handle has been closed.
    pub fn is_closed(&self) -> (r: bool)
        ensures
            r == (self@ == 0),
    {
        self.raw == 0
    }

    /// Runs a native constructor. A zero result means failure: the error is
    /// then the one recorded for `err_slot` (fetched only in that case).
    pub fn open<C, E>(native_create: C, err_slot: i64, last_error: E) -> (r: Result<Handle>) where
        C: FnOnce() -> i64,
        E: FnOnce(i64) -> Option<String>,

        requires
            native_create.requires(()),
            native_create.ensures((), 0i64) ==> last_error.requires((err_slot,)),
        ensures
            match r {
                Ok(h) => h@ != 0 && native_create.ensures((), h@),
                Err(e) => native_create.ensures((), 0i64) && exists|m: Option<String>|
                    #[trigger] last_error.ensures((err_slot,), m) && e == spec_take_error(m),
            },
    {
        let raw = native_create();
        if raw == 0 {
            let m = last_error(err_slot);
            Err(take_error(m))
        } else {
            Ok(Handle { raw })
        }
    }

    /// Like `open`, for a native constructor that takes one argument.
    pub fn open_with<A, C, E>(arg: A, native_create: C, err_slot: i64, last_error: E) -> (r: Result<Handle>) where
        C: FnOnce(A) -> i64,
        E: FnOnce(i64) -> Option<String>,

        requires
            native_create.requires((arg,)),
            native_create.ensures((arg,), 0i64) ==> last_error.requires((err_slot,)),
        ensures
            match r {
                Ok(h) => h@ != 0 && native_create.ensures((arg,), h@),
                Err(e) => native_create.ensures((arg,), 0i64) && exists|m: Option<String>|
                    #[trigger] last_error.ensures((err_slot,), m) && e == spec_take_error(m),
            },
    {
        let raw = native_create(arg);
        if raw == 0 {
            let m = last_error(err_slot);
            Err(take_error(m))
        } else {
            Ok(Handle { raw })
        }
    }

    /// Closes the handle through `native_close` unless it is already
    /// closed. The handle is marked closed before the native call, so the
    /// native close runs at most once however often this is called.
    pub fn close_with<C, E>(&mut self, native_close: C, last_error: E) -> (r: Result<()>) where
        C: FnOnce(i64) -> i32,
        E: FnOnce(i64) -> Option<String>,

        requires
            old(self)@ != 0 ==> native_close.requires((old(self)@,)),
            forall|rc: i32|
                old(self)@ != 0 && #[trigger] native_close.ensures((old(self)@,), rc) && rc != 0
                    ==> last_error.requires((old(self)@,)),
        ensures
            final(self)@ == 0,
            old(self)@ == 0 ==> r is Ok,
            old(self)@ != 0 ==> exists|rc: i32| #[trigger] native_close.ensures((old(self)@,), rc)
                && (rc == 0 ==> r is Ok)
                && (rc != 0 ==> exists|m: Option<String>|
                    #[trigger] last_error.ensures((old(self)@,), m) && r == spec_close_outcome(rc, m)),
    {
        if self.raw == 0 {
            return Ok(());
        }
        let handle = self.raw;
        self.raw = 0;
        let rc = native_close(handle);
        if rc != 0 {
            let m = last_error(handle);
            return Err(take_error(m));
        }
        Ok(())
    }

    /// Closes the handle through `native_close`, ignoring its status, unless
    /// it is already closed. Returns the native status, or `None` when no
    /// native call was made.
    pub fn release_with<C>(&mut self, native_close: C) -> (r: Option<i32>) where
        C: FnOnce(i64) -> i32,

        requires
            old(self)@ != 0 ==> native_close.requires((old(self)@,)),
        ensures
            final(self)@ == 0,
            r is None <==> old(self)@ == 0,
            r matches Some(rc) ==> native_close.ensures((old(self)@,), rc),
    {
        if self.raw == 0 {
            return None;
        }
        let handle = self.raw;
        self.raw = 0;
        Some(native_close(handle))
    }

    /// Moves the handle out, leaving this one closed, so that closing this
    /// one later makes no native call.
    pub fn take(&mut self) -> (r: Handle)
        ensures
            r@ == old(self)@,
            final(self)@ == 0,
    {
        let raw = self.raw;
        self.raw = 0;
        Handle { raw }
    }
}

} // verus!
