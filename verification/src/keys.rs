use vstd::prelude::*;
use vstd::std_specs::cmp::PartialEqSpec;
use vstd::utf8::encode_utf8;

use crate::error::{spec_take_error, Error, Result};
use crate::ffi::{c_string_bytes, has_nul, is_nul_error, take_string_or_err, to_cstring};

verus! {

/// A node identity (private key and associated public connection info),
/// carried as an opaque JSON string. Persisting it is left to the caller:
/// `to_json` gives the string to store, `from_json` restores it.
#[derive(Debug, Clone)]
pub struct PrivateKey(String);

impl View for PrivateKey {
    type V = Seq<char>;

    closed spec fn view(&self) -> Seq<char> {
        self.0@
    }
}

impl PartialEq for PrivateKey {
    fn eq(&self, other: &PrivateKey) -> (r: bool) {
        self.0 == other.0
    }
}

impl Eq for PrivateKey {}

impl vstd::std_specs::cmp::PartialEqSpecImpl for PrivateKey {
    open spec fn obeys_eq_spec() -> bool {
        true
    }

    open spec fn eq_spec(&self, other: &PrivateKey) -> bool {
        self@ == other@
    }
}

/// Two keys compare equal exactly when their JSON texts are equal.
pub proof fn lemma_key_eq(a: PrivateKey, b: PrivateKey)
    ensures
        a.eq_spec(&b) <==> a@ == b@,
{
}

impl PrivateKey {
    /// Wraps a previously saved JSON string without validating it;
    /// validation happens on first use.
    pub fn from_json(json: String) -> (k: PrivateKey)
        ensures
            k@ == json@,
    {
        PrivateKey(json)
    }

    /// The JSON representation to persist.
    pub fn to_json(&self) -> (r: &str)
        ensures
            r@ == self@,
    {
        self.0.as_str()
    }

    /// Generates a new, random identity. No string from the native call
    /// fails with the error recorded in slot 0.
    pub fn generate<C, E>(native_generate: C, last_error: E) -> (r: Result<PrivateKey>) where
        C: FnOnce() -> Option<String>,
        E: FnOnce(i64) -> Option<String>,

        requires
            native_generate.requires(()),
            native_generate.ensures((), None::<String>) ==> last_error.requires((0i64,)),
        ensures
            exists|s: Option<String>| #[trigger] native_generate.ensures((), s) && match s {
                Some(x) => r matches Ok(k) && k@ == x@,
                None => exists|m: Option<String>|
                    #[trigger] last_error.ensures((0i64,), m) && (r matches Err(e) && e
                        == spec_take_error(m)),
            },
    {
        let s = native_generate();
        let json = take_string_or_err(s, 0, last_error)?;
        Ok(PrivateKey(json))
    }

    /// This identity's public key in text form (e.g. `"nodekey:..."`). The
    /// JSON is handed to the native call as a C string; JSON holding a NUL
    /// byte is refused before any native call, and no string from the native
    /// call fails with the error recorded in slot 0.
    pub fn public_key<C, E>(&self, native_public_key: C, last_error: E) -> (r: Result<String>) where
        C: FnOnce(Vec<u8>) -> Option<String>,
        E: FnOnce(i64) -> Option<String>,

        requires
            forall|json: Vec<u8>|
                !has_nul(encode_utf8(self@)) && json@ == c_string_bytes(self@)
                    ==> #[trigger] native_public_key.requires((json,)),
            forall|json: Vec<u8>|
                !has_nul(encode_utf8(self@)) && json@ == c_string_bytes(self@)
                    && #[trigger] native_public_key.ensures((json,), None::<String>)
                    ==> last_error.requires((0i64,)),
        ensures
            has_nul(encode_utf8(self@)) ==> (r matches Err(e) && is_nul_error(self@, e)),
            !has_nul(encode_utf8(self@)) ==> exists|json: Vec<u8>, s: Option<String>|
                json@ == c_string_bytes(self@) && #[trigger] native_public_key.ensures((json,), s)
                && match s {
                    Some(x) => r == Ok::<String, Error>(x),
                    None => exists|m: Option<String>|
                        #[trigger] last_error.ensures((0i64,), m) && r == Err::<String, Error>(
                            spec_take_error(m),
                        ),
                },
    {
        let json = to_cstring(self.0.as_str())?;
        let s = native_public_key(json);
        take_string_or_err(s, 0, last_error)
    }

    /// The JSON text handed to native calls.
    pub fn as_str(&self) -> (r: &str)
        ensures
            r@ == self@,
    {
        self.0.as_str()
    }
}

/// Resolves a connection token into a self-contained form with the DERP
/// relay's details embedded. The token is handed to the native call as a C
/// string; a token holding a NUL byte is refused before any native call, and
/// no string from the native call fails with the error recorded in slot 0.
pub fn resolve_conn_blob<C, E>(conn_blob: &str, native_resolve: C, last_error: E) -> (r: Result<String>) where
    C: FnOnce(Vec<u8>) -> Option<String>,
    E: FnOnce(i64) -> Option<String>,

    requires
        forall|b: Vec<u8>|
            !has_nul(encode_utf8(conn_blob@)) && b@ == c_string_bytes(conn_blob@)
                ==> #[trigger] native_resolve.requires((b,)),
        forall|b: Vec<u8>|
            !has_nul(encode_utf8(conn_blob@)) && b@ == c_string_bytes(conn_blob@)
                && #[trigger] native_resolve.ensures((b,), None::<String>)
                ==> last_error.requires((0i64,)),
    ensures
        has_nul(encode_utf8(conn_blob@)) ==> (r matches Err(e) && is_nul_error(conn_blob@, e)),
        !has_nul(encode_utf8(conn_blob@)) ==> exists|b: Vec<u8>, s: Option<String>|
            b@ == c_string_bytes(conn_blob@) && #[trigger] native_resolve.ensures((b,), s)
            && match s {
                Some(x) => r == Ok::<String, Error>(x),
                None => exists|m: Option<String>|
                    #[trigger] last_error.ensures((0i64,), m) && r == Err::<String, Error>(
                        spec_take_error(m),
                    ),
            },
{
    let c = to_cstring(conn_blob)?;
    let s = native_resolve(c);
    take_string_or_err(s, 0, last_error)
}

} // verus!
