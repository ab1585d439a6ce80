use vstd::prelude::*;
use vstd::slice::slice_to_vec;
use vstd::string::*;
use vstd::utf8::encode_utf8;

use crate::error::{spec_take_error, take_error, Error, NulError, Result};

verus! {

/// Whether `bytes` holds a NUL byte.
pub open spec fn has_nul(bytes: Seq<u8>) -> bool {
    exists|i: int| 0 <= i < bytes.len() && bytes[i] == 0
}

/// `pos` is the index of the first NUL byte of `bytes`.
pub open spec fn is_first_nul(bytes: Seq<u8>, pos: int) -> bool {
    &&& 0 <= pos < bytes.len()
    &&& bytes[pos] == 0
    &&& forall|j: int| 0 <= j < pos ==> bytes[j] != 0
}

/// The bytes of the C string for the text `s`: its UTF-8 encoding and a
/// terminating NUL.
pub open spec fn c_string_bytes(s: Seq<char>) -> Seq<u8> {
    encode_utf8(s).push(0u8)
}

/// `e` is the error that refuses the text `s` for holding a NUL byte.
pub open spec fn is_nul_error(s: Seq<char>, e: Error) -> bool {
    e matches Error::InvalidString(n) && n.bytes@ == encode_utf8(s)
        && is_first_nul(encode_utf8(s), n.position as int)
}

/// Only a zero byte counts as NUL: `has_nul` holds exactly when the bytes
/// contain 0 (a newline or any other byte does not), and `is_first_nul` names
/// a position holding 0 with no 0 before it.
pub proof fn lemma_nul_means_zero_byte(bytes: Seq<u8>, pos: int)
    ensures
        has_nul(bytes) <==> bytes.contains(0u8),
        is_first_nul(bytes, pos) <==> (0 <= pos < bytes.len() && bytes[pos] == 0u8
            && !bytes.take(pos).contains(0u8)),
{
    if has_nul(bytes) {
        let i = choose|i: int| 0 <= i < bytes.len() && bytes[i] == 0;
        assert(bytes[i] == 0u8);
    }
    if 0 <= pos < bytes.len() && bytes[pos] == 0u8 && !bytes.take(pos).contains(0u8) {
        assert forall|j: int| 0 <= j < pos implies bytes[j] != 0 by {
            assert(bytes.take(pos)[j] == bytes[j]);
        }
    }
    if is_first_nul(bytes, pos) {
        assert forall|j: int| 0 <= j < bytes.take(pos).len() implies bytes.take(pos)[j] != 0u8 by {
            assert(bytes.take(pos)[j] == bytes[j]);
        }
    }
}

/// The C string of a text is its UTF-8 encoding followed by exactly one
/// more byte, a 0; and the error refusing a text holds a zero byte of that
/// text's encoding at the position it names, with no zero byte before it.
pub proof fn lemma_c_string_shape(s: Seq<char>, e: Error)
    ensures
        c_string_bytes(s).len() == encode_utf8(s).len() + 1,
        c_string_bytes(s)[encode_utf8(s).len() as int] == 0u8,
        c_string_bytes(s).take(encode_utf8(s).len() as int) == encode_utf8(s),
        is_nul_error(s, e) <==> (e matches Error::InvalidString(n) && n.bytes@ == encode_utf8(s)
            && n.position < encode_utf8(s).len() && encode_utf8(s)[n.position as int] == 0u8
            && !encode_utf8(s).take(n.position as int).contains(0u8)),
{
    assert(c_string_bytes(s).take(encode_utf8(s).len() as int) =~= encode_utf8(s));
    if let Error::InvalidString(n) = e {
        lemma_nul_means_zero_byte(encode_utf8(s), n.position as int);
    }
}

/// A C string made from text without NUL bytes reads back as exactly that
/// text: its first NUL is the terminator, and the bytes before it are the
/// text's UTF-8 encoding.
pub proof fn lemma_c_string_reads_back(s: Seq<char>)
    requires
        !has_nul(encode_utf8(s)),
    ensures
        is_first_nul(c_string_bytes(s), encode_utf8(s).len() as int),
        c_string_bytes(s).take(encode_utf8(s).len() as int) == encode_utf8(s),
{
    let b = encode_utf8(s);
    let c = c_string_bytes(s);
    assert forall|j: int| 0 <= j < b.len() implies c[j] != 0 by {
        assert(c[j] == b[j]);
    }
    assert(c.take(b.len() as int) =~= b);
}

/// Converts `s` to the bytes of a NUL-terminated C string for one native
/// call. Fails with `InvalidString` when `s` itself holds a NUL byte, naming
/// the first one.
pub fn to_cstring(s: &str) -> (r: Result<Vec<u8>>)
    ensures
        r is Ok <==> !has_nul(encode_utf8(s@)),
        r matches Ok(v) ==> v@ == c_string_bytes(s@),
        r matches Err(e) ==> is_nul_error(s@, e),
{
    let bytes = s.as_bytes();
    let len = bytes.len();
    let mut i: usize = 0;
    while i < len
        invariant
            len == bytes@.len(),
            bytes@ == s.spec_bytes(),
            i <= len,
            forall|j: int| 0 <= j < i ==> bytes@[j] != 0,
        decreases len - i,
    {
        if bytes[i] == 0 {
            let refused = slice_to_vec(bytes);
            return Err(Error::InvalidString(NulError { position: i, bytes: refused }));
        }
        i = i + 1;
    }
    let mut v = slice_to_vec(bytes);
    v.push(0u8);
    Ok(v)
}

/// A string returned by a native call, or — when the call returned none —
/// the error recorded for `err_slot` (fetched only in that case).
pub fn take_string_or_err<E>(s: Option<String>, err_slot: i64, last_error: E) -> (r: Result<String>) where
    E: FnOnce(i64) -> Option<String>,

    requires
        s is None ==> last_error.requires((err_slot,)),
    ensures
        s matches Some(x) ==> r == Ok::<String, Error>(x),
        s is None ==> exists|m: Option<String>|
            #[trigger] last_error.ensures((err_slot,), m) && r == Err::<String, Error>(spec_take_error(m)),
{
    match s {
        Some(x) => Ok(x),
        None => {
            let m = last_error(err_slot);
            Err(take_error(m))
        },
    }
}

/// The length handed to a native read or write for a buffer of `len`
/// bytes: at most `i32::MAX`.
pub fn native_len(len: usize) -> (r: i32)
    ensures
        r as int == if len <= i32::MAX { len as int } else { i32::MAX as int },
{
    if len <= 0x7fff_ffff {
        len as i32
    } else {
        i32::MAX
    }
}

} // verus!
