//! Evidence extraction from raw HTTP header values.
//!
//! Header values arrive as raw bytes. A value is usable as text exactly when
//! every byte is visible ASCII (or a horizontal tab); the free-query
//! authorization check strips an optional bearer scheme prefix and compares
//! the remainder against the configured token, byte for byte.

use vstd::prelude::*;
use vstd::utf8::encode_utf8;

verus! {

/// A byte of an HTTP header value that counts as visible text: the printable
/// ASCII range together with the horizontal tab.
pub open spec fn is_visible_header_byte(b: u8) -> bool {
    (32 <= b && b < 127) || b == 9
}

/// A header value is representable as text when every byte of it is visible
/// ASCII (or a tab).
pub open spec fn is_header_text(s: Seq<u8>) -> bool {
    forall|i: int| 0 <= i < s.len() ==> is_visible_header_byte(s[i])
}

/// The text carried by a header value made of visible ASCII bytes: one
/// character per byte.
pub open spec fn header_chars(s: Seq<u8>) -> Seq<char> {
    s.map_values(|b: u8| b as char)
}

/// The bytes of the bearer authorization scheme prefix, `"Bearer "`
/// (ASCII `B`, `e`, `a`, `r`, `e`, `r`, space).
pub open spec fn bearer_prefix() -> Seq<u8> {
    seq![66u8, 101u8, 97u8, 114u8, 101u8, 114u8, 32u8]
}

/// The token part of an authorization header value: the bytes after a
/// leading `"Bearer "` scheme prefix, or the whole value when no such
/// prefix is present.
pub open spec fn bearer_token_bytes(a: Seq<u8>) -> Seq<u8> {
    if a.len() >= 7 && a.subrange(0, 7) == bearer_prefix() {
        a.skip(7)
    } else {
        a
    }
}

/// The raw bytes of an optional header value, as an optional byte sequence.
pub open spec fn opt_bytes_view(o: Option<Vec<u8>>) -> Option<Seq<u8>> {
    match o {
        Some(v) => Some(v@),
        None => None,
    }
}

/// The text of an optional configured string, as an optional character
/// sequence.
pub open spec fn opt_text_view(o: Option<String>) -> Option<Seq<char>> {
    match o {
        Some(s) => Some(s@),
        None => None,
    }
}

/// A request carries free-query authorization exactly when an authorization
/// header is present and text-decodable, a free-query token is configured,
/// and the header's bearer token equals the configured token's UTF-8 bytes.
pub open spec fn is_free_auth(auth: Option<Seq<u8>>, token: Option<Seq<char>>) -> bool {
    match (auth, token) {
        (Some(a), Some(t)) => is_header_text(a) && bearer_token_bytes(a) == encode_utf8(t),
        _ => false,
    }
}

/// Decides whether a raw header value is representable as text.
pub fn header_is_text(v: &Vec<u8>) -> (r: bool)
    ensures
        r == is_header_text(v@),
{
    let mut i: usize = 0;
    while i < v.len()
        invariant
            0 <= i <= v@.len(),
            forall|j: int| 0 <= j < i ==> is_visible_header_byte(v@[j]),
        decreases v@.len() - i,
    {
        let b = v[i];
        if !((32 <= b && b < 127) || b == 9) {
            return false;
        }
        i = i + 1;
    }
    true
}

/// Relies on `String::from_utf8`: visible ASCII bytes are valid single-byte
/// UTF-8 sequences, so the conversion succeeds and yields one character per
/// byte.
#[verifier::external_body]
pub(crate) fn header_text_string(v: &Vec<u8>) -> (r: String)
    requires
        is_header_text(v@),
    ensures
        r@ == header_chars(v@),
{
    String::from_utf8(v.clone()).expect("visible ASCII bytes are valid UTF-8")
}

/// Decides whether the authorization header value, after stripping an
/// optional bearer scheme prefix, equals the configured token's UTF-8 bytes.
fn auth_matches_token(auth: &Vec<u8>, token: &String) -> (r: bool)
    ensures
        r == (bearer_token_bytes(auth@) == encode_utf8(token@)),
{
    let tb: &[u8] = token.as_str().as_bytes();
    let has_prefix: bool = auth.len() >= 7 && auth[0] == 66 && auth[1] == 101 && auth[2] == 97
        && auth[3] == 114 && auth[4] == 101 && auth[5] == 114 && auth[6] == 32;
    proof {
        if auth@.len() >= 7 {
            assert(auth@.subrange(0, 7) =~= bearer_prefix() <==> (auth@[0] == 66 && auth@[1]
                == 101 && auth@[2] == 97 && auth@[3] == 114 && auth@[4] == 101 && auth@[5] == 114
                && auth@[6] == 32)) by {
                if auth@[0] == 66 && auth@[1] == 101 && auth@[2] == 97 && auth@[3] == 114
                    && auth@[4] == 101 && auth@[5] == 114 && auth@[6] == 32 {
                    assert forall|k: int| 0 <= k < 7 implies auth@.subrange(0, 7)[k]
                        == bearer_prefix()[k] by {
                        assert(auth@.subrange(0, 7)[k] == auth@[k]);
                    }
                }
            }
        }
    }
    let start: usize = if has_prefix {
        7
    } else {
        0
    };
    let ghost rest: Seq<u8> = bearer_token_bytes(auth@);
    proof {
        assert(rest =~= auth@.subrange(start as int, auth@.len() as int));
    }
    if auth.len() - start != tb.len() {
        return false;
    }
    let mut i: usize = 0;
    while i < tb.len()
        invariant
            0 <= i <= tb@.len(),
            tb@ == encode_utf8(token@),
            rest == bearer_token_bytes(auth@),
            rest =~= auth@.subrange(start as int, auth@.len() as int),
            start + tb@.len() == auth@.len(),
            start + tb@.len() <= usize::MAX,
            forall|j: int| 0 <= j < i ==> rest[j] == tb@[j],
        decreases tb@.len() - i,
    {
        if auth[start + i] != tb[i] {
            assert(rest[i as int] != tb@[i as int]);
            return false;
        }
        i = i + 1;
    }
    assert(rest =~= tb@);
    true
}

/// Computes the free-query authorization evidence for a request, from the
/// raw authorization header value (if any) and the configured free-query
/// token (if any).
pub fn free_auth_evidence(auth: &Option<Vec<u8>>, token: &Option<String>) -> (r: bool)
    ensures
        r == is_free_auth(opt_bytes_view(*auth), opt_text_view(*token)),
{
    match (auth, token) {
        (Some(a), Some(t)) => header_is_text(a) && auth_matches_token(a, t),
        _ => false,
    }
}

} // verus!
