//! The text hashing service: a text in, the lowercase hexadecimal BLAKE3
//! digest of its UTF-8 bytes out.

use vstd::prelude::*;
use vstd::utf8::encode_utf8;

verus! {

/// The request: the text to hash.
#[derive(Clone, Debug)]
pub struct PostData {
    pub text: String,
}

/// The reply: the digest in lowercase hexadecimal.
#[derive(Clone, Debug)]
pub struct ApiData {
    pub hex: String,
}

impl Default for ApiData {
    fn default() -> (d: ApiData)
        ensures
            d.hex@ == Seq::<char>::empty(),
    {
        ApiData { hex: String::new() }
    }
}

/// The 32-byte BLAKE3 digest of `input`.
pub uninterp spec fn blake3_hash(input: Seq<u8>) -> Seq<u8>;

/// Calls `blake3::hash` and takes the digest's bytes. Claimed: the 32 bytes are
/// those `blake3_hash` names for the input; the hash function itself is left
/// to the crate.
#[verifier::external_body]
fn blake3_digest(input: &[u8]) -> (digest: [u8; 32])
    ensures
        digest@ == blake3_hash(input@),
{
    *blake3::hash(input).as_bytes()
}

/// The lowercase hexadecimal digit for `n` (below 16).
pub open spec fn hex_char(n: u8) -> char {
    seq!['0', '1', '2', '3', '4', '5', '6', '7', '8', '9', 'a', 'b', 'c', 'd', 'e', 'f'][n as int]
}

/// `bytes` in lowercase hexadecimal: two digits per byte, high half first.
pub open spec fn hex_lower(bytes: Seq<u8>) -> Seq<char>
    decreases bytes.len(),
{
    if bytes.len() == 0 {
        Seq::empty()
    } else {
        hex_lower(bytes.drop_last()) + seq![hex_char(bytes.last() / 16), hex_char(bytes.last() % 16)]
    }
}

fn hex_digit_str(n: u8) -> (s: &'static str)
    requires
        n < 16,
    ensures
        s@ == seq![hex_char(n)],
{
    proof {
        reveal_strlit("0");
        reveal_strlit("1");
        reveal_strlit("2");
        reveal_strlit("3");
        reveal_strlit("4");
        reveal_strlit("5");
        reveal_strlit("6");
        reveal_strlit("7");
        reveal_strlit("8");
        reveal_strlit("9");
        reveal_strlit("a");
        reveal_strlit("b");
        reveal_strlit("c");
        reveal_strlit("d");
        reveal_strlit("e");
        reveal_strlit("f");
    }
    if n == 0 { "0" }
    else if n == 1 { "1" }
    else if n == 2 { "2" }
    else if n == 3 { "3" }
    else if n == 4 { "4" }
    else if n == 5 { "5" }
    else if n == 6 { "6" }
    else if n == 7 { "7" }
    else if n == 8 { "8" }
    else if n == 9 { "9" }
    else if n == 10 { "a" }
    else if n == 11 { "b" }
    else if n == 12 { "c" }
    else if n == 13 { "d" }
    else if n == 14 { "e" }
    else { "f" }
}

/// `bytes` in lowercase hexadecimal.
pub fn to_hex(bytes: &[u8]) -> (hex: String)
    ensures
        hex@ == hex_lower(bytes@),
{
    let mut hex = String::new();
    let n = bytes.len();
    let mut i: usize = 0;
    while i < n
        invariant
            n == bytes@.len(),
            i <= n,
            hex@ == hex_lower(bytes@.take(i as int)),
        decreases n - i,
    {
        let b = bytes[i];
        hex.append(hex_digit_str(b / 16));
        hex.append(hex_digit_str(b % 16));
        proof {
            assert(bytes@.take(i + 1).drop_last() =~= bytes@.take(i as int));
        }
        i = i + 1;
    }
    proof {
        assert(bytes@.take(n as int) =~= bytes@);
    }
    hex
}

/// The reply for a digest.
pub fn api_data(digest: &[u8]) -> (d: ApiData)
    ensures
        d.hex@ == hex_lower(digest@),
{
    ApiData { hex: to_hex(digest) }
}

/// Hashes the request's text: the reply holds the lowercase hexadecimal BLAKE3
/// digest of the text's UTF-8 bytes.
pub fn hash_text(data: &PostData) -> (reply: ApiData)
    ensures
        reply.hex@ == hex_lower(blake3_hash(encode_utf8(data.text@))),
        reply.hex@.len() == 64,
        forall|i: int| 0 <= i < reply.hex@.len() ==> ('0' <= #[trigger] reply.hex@[i] <= '9'
            || 'a' <= reply.hex@[i] <= 'f'),
{
    let digest = blake3_digest(data.text.as_str().as_bytes());
    proof {
        assert(digest@.len() == 32);
        law_hex_shape(digest@);
    }
    api_data(&digest)
}

/// Hexadecimal text has two digits per byte, each a lowercase hexadecimal digit.
pub proof fn law_hex_shape(bytes: Seq<u8>)
    ensures
        hex_lower(bytes).len() == 2 * bytes.len(),
        forall|i: int| 0 <= i < hex_lower(bytes).len() ==> ('0' <= #[trigger] hex_lower(bytes)[i] <= '9'
            || 'a' <= hex_lower(bytes)[i] <= 'f'),
    decreases bytes.len(),
{
    if bytes.len() > 0 {
        law_hex_shape(bytes.drop_last());
        let h = hex_lower(bytes.drop_last());
        let b = bytes.last();
        assert forall|i: int| 0 <= i < hex_lower(bytes).len() implies ('0' <= #[trigger] hex_lower(bytes)[i] <= '9'
            || 'a' <= hex_lower(bytes)[i] <= 'f') by {
            if i >= h.len() {
                let n: u8 = if i == h.len() { b / 16 } else { b % 16 };
                assert(0 <= n < 16);
                assert(hex_lower(bytes)[i] == hex_char(n));
            } else {
                assert(hex_lower(bytes)[i] == h[i]);
            }
        }
    }
}

proof fn lemma_hex_char_injective(m: u8, n: u8)
    requires
        0 <= m < 16,
        0 <= n < 16,
        hex_char(m) == hex_char(n),
    ensures
        m == n,
{
}

/// Different byte strings have different hexadecimal text: the text determines the bytes.
pub proof fn law_hex_injective(a: Seq<u8>, b: Seq<u8>)
    requires
        hex_lower(a) == hex_lower(b),
    ensures
        a == b,
    decreases a.len(),
{
    law_hex_shape(a);
    law_hex_shape(b);
    if a.len() > 0 {
        let ha = hex_lower(a.drop_last());
        let hb = hex_lower(b.drop_last());
        law_hex_shape(a.drop_last());
        law_hex_shape(b.drop_last());
        let k = ha.len() as int;
        assert(b.len() == a.len());
        assert(hb.len() == k);
        assert(hex_lower(a)[k] == hex_char(a.last() / 16));
        assert(hex_lower(b)[k] == hex_char(b.last() / 16));
        assert(hex_lower(a)[k + 1] == hex_char(a.last() % 16));
        assert(hex_lower(b)[k + 1] == hex_char(b.last() % 16));
        lemma_hex_char_injective(a.last() / 16, b.last() / 16);
        lemma_hex_char_injective(a.last() % 16, b.last() % 16);
        assert(hex_lower(a).subrange(0, k) =~= ha);
        assert(hex_lower(b).subrange(0, k) =~= hb);
        law_hex_injective(a.drop_last(), b.drop_last());
        assert(a =~= a.drop_last().push(a.last()));
        assert(b =~= b.drop_last().push(b.last()));
    }
}

} // verus!
