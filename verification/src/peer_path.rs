use vstd::prelude::*;
use vstd::string::*;
use vstd::utf8::encode_utf8_decode_utf8;

verus! {

/// Whether the (single, 1:1) connected peer is reachable over a direct UDP
/// path, is still relayed through a DERP server, or neither is known yet.
#[derive(Debug, Clone, Copy, PartialEq, Eq, Structural)]
pub enum PeerPath {
    /// A direct UDP path to the peer has been established.
    Direct,
    /// Traffic is currently relayed through a DERP server.
    Relay,
    /// No path information is available yet.
    Unknown,
}

/// The path that the native layer's text names: `"direct"`, `"relay"`,
/// anything else is unknown.
pub open spec fn spec_peer_path(s: Seq<char>) -> PeerPath {
    if s == "direct"@ {
        PeerPath::Direct
    } else if s == "relay"@ {
        PeerPath::Relay
    } else {
        PeerPath::Unknown
    }
}

/// Each known path is named by exactly one text: `"direct"` names `Direct`,
/// `"relay"` names `Relay`, and every other text is `Unknown`.
pub proof fn lemma_peer_path_names(s: Seq<char>)
    ensures
        spec_peer_path(s) == PeerPath::Direct <==> s == "direct"@,
        spec_peer_path(s) == PeerPath::Relay <==> s == "relay"@,
        spec_peer_path(s) == PeerPath::Unknown <==> (s != "direct"@ && s != "relay"@),
{
    reveal_strlit("direct");
    reveal_strlit("relay");
    assert("direct"@ != "relay"@) by {
        assert("direct"@.len() != "relay"@.len());
    }
}

/// Byte-wise equality of two slices.
fn bytes_equal(a: &[u8], b: &[u8]) -> (r: bool)
    ensures
        r == (a@ == b@),
{
    if a.len() != b.len() {
        return false;
    }
    let n = a.len();
    let mut i: usize = 0;
    while i < n
        invariant
            n == a@.len(),
            n == b@.len(),
            i <= n,
            forall|j: int| 0 <= j < i ==> a@[j] == b@[j],
        decreases n - i,
    {
        if a[i] != b[i] {
            return false;
        }
        i = i + 1;
    }
    assert(a@ =~= b@);
    true
}

/// Two strings are equal exactly when their UTF-8 encodings are.
fn str_equal(a: &str, b: &str) -> (r: bool)
    ensures
        r == (a@ == b@),
{
    let r = bytes_equal(a.as_bytes(), b.as_bytes());
    proof {
        encode_utf8_decode_utf8(a@);
        encode_utf8_decode_utf8(b@);
    }
    r
}

impl PeerPath {
    /// Reads the path from the text the native layer reports for it.
    pub fn from_c_str(s: &str) -> (r: PeerPath)
        ensures
            r == spec_peer_path(s@),
    {
        if str_equal(s, "direct") {
            PeerPath::Direct
        } else if str_equal(s, "relay") {
            PeerPath::Relay
        } else {
            PeerPath::Unknown
        }
    }
}

} // verus!
