//! Lower-case hexadecimal encoding of bytes, its decoding, and the SHA-256
//! digest that the licensing code derives identifiers from.

use vstd::prelude::*;
use sha2::{Digest, Sha256};
use crate::text::string_of;
use vstd::string::StringSliceAdditionalSpecFns;

verus! {

/// The lower-case hex digit of a nibble.
pub open spec fn hex_digit(n: nat) -> char {
    if n < 10 {
        (('0' as u32) + n) as char
    } else {
        (('a' as u32) + (n - 10)) as char
    }
}

/// The two lower-case hex digits of every byte, in order, as `{:02x}` writes them.
pub open spec fn hex_lower(b: Seq<u8>) -> Seq<char>
    decreases b.len(),
{
    if b.len() == 0 {
        seq![]
    } else {
        hex_lower(b.drop_last()) + seq![
            hex_digit((b.last() / 16) as nat),
            hex_digit((b.last() % 16) as nat),
        ]
    }
}

pub fn hex_digit_of(n: u8) -> (c: char)
    requires
        n < 16,
    ensures
        c == hex_digit(n as nat),
{
    if n < 10 {
        (n + 48) as char
    } else {
        (n + 87) as char
    }
}

pub proof fn lemma_hex_lower_len(b: Seq<u8>)
    ensures
        hex_lower(b).len() == 2 * b.len(),
    decreases b.len(),
{
    if b.len() > 0 {
        lemma_hex_lower_len(b.drop_last());
    }
}

pub fn hex_chars(bytes: &[u8]) -> (r: Vec<char>)
    ensures
        r@ == hex_lower(bytes@),
{
    let mut r: Vec<char> = Vec::new();
    let mut i: usize = 0;
    while i < bytes.len()
        invariant
            i <= bytes.len(),
            r@ == hex_lower(bytes@.take(i as int)),
        decreases bytes.len() - i,
    {
        let b = bytes[i];
        r.push(hex_digit_of(b / 16));
        r.push(hex_digit_of(b % 16));
        i += 1;
        assert(bytes@.take(i as int).drop_last() =~= bytes@.take(i - 1));
        assert(r@ =~= hex_lower(bytes@.take(i as int)));
    }
    assert(bytes@.take(i as int) =~= bytes@);
    r
}

/// Lower-case hex text of `bytes`.
pub fn bytes_to_hex(bytes: &[u8]) -> (r: String)
    ensures
        r@ == hex_lower(bytes@),
{
    let v = hex_chars(bytes);
    string_of(v.as_slice())
}

/// The value of an ASCII hex digit of either case, as `char::to_digit(16)`.
pub open spec fn hex_value(b: u8) -> Option<nat> {
    if 48 <= b <= 57 {
        Some((b - 48) as nat)
    } else if 97 <= b <= 102 {
        Some((b - 87) as nat)
    } else if 65 <= b <= 70 {
        Some((b - 55) as nat)
    } else {
        None
    }
}

/// What `u8::from_str_radix(pair, 16)` gives for the two bytes of a pair:
/// a leading `+` is allowed before a single digit.
pub open spec fn pair_value(b0: u8, b1: u8) -> Option<u8> {
    if b0 == 43 {
        match hex_value(b1) {
            Some(v) => Some(v as u8),
            None => None,
        }
    } else {
        match (hex_value(b0), hex_value(b1)) {
            (Some(h), Some(l)) => Some((h * 16 + l) as u8),
            _ => None,
        }
    }
}

/// Whether byte position `p` of UTF-8 text `b` is a character boundary.
pub open spec fn char_boundary(b: Seq<u8>, p: int) -> bool {
    p == b.len() || (0 <= p < b.len() && !(128 <= b[p] && b[p] < 192))
}

/// Decoding of the pairs from byte position `k` on: `None` as soon as a pair
/// does not decode.
pub open spec fn decode_pairs(b: Seq<u8>, k: int) -> Option<Seq<u8>>
    decreases b.len() - k,
{
    if k < 0 || k + 2 > b.len() {
        Some(seq![])
    } else {
        match pair_value(b[k], b[k + 1]) {
            None => None,
            Some(v) => match decode_pairs(b, k + 2) {
                Some(rest) => Some(seq![v] + rest),
                None => None,
            },
        }
    }
}

/// Whether decoding reaches a pair whose end is not a character boundary,
/// where slicing the text panics.
pub open spec fn pair_slicing_panics(b: Seq<u8>, k: int) -> bool
    decreases b.len() - k,
{
    if k < 0 || k + 2 > b.len() {
        false
    } else if !char_boundary(b, k + 2) {
        true
    } else if pair_value(b[k], b[k + 1]) is None {
        false
    } else {
        pair_slicing_panics(b, k + 2)
    }
}

/// The bytes written by hex text: `None` for an odd length or for a pair
/// that is not a hex number.
pub open spec fn hex_decode(b: Seq<u8>) -> Option<Seq<u8>> {
    if b.len() % 2 != 0 {
        None
    } else {
        decode_pairs(b, 0)
    }
}

fn hex_value_of(b: u8) -> (r: Option<u8>)
    ensures
        match r {
            Some(v) => hex_value(b) == Some(v as nat),
            None => hex_value(b) is None,
        },
{
    if 48 <= b && b <= 57 {
        Some(b - 48)
    } else if 97 <= b && b <= 102 {
        Some(b - 87)
    } else if 65 <= b && b <= 70 {
        Some(b - 55)
    } else {
        None
    }
}

fn pair_value_of(b0: u8, b1: u8) -> (r: Option<u8>)
    ensures
        r == pair_value(b0, b1),
{
    if b0 == 43 {
        match hex_value_of(b1) {
            Some(v) => Some(v),
            None => None,
        }
    } else {
        match (hex_value_of(b0), hex_value_of(b1)) {
            (Some(h), Some(l)) => Some(h * 16 + l),
            _ => None,
        }
    }
}

pub proof fn lemma_decode_pairs_step(b: Seq<u8>, k: int, acc: Seq<u8>, v: u8)
    requires
        0 <= k,
        k + 2 <= b.len(),
        pair_value(b[k], b[k + 1]) == Some(v),
    ensures
        decode_pairs(b, k) == match decode_pairs(b, k + 2) {
            Some(rest) => Some(seq![v] + rest),
            None => None::<Seq<u8>>,
        },
{
}

/// Whether decoding `hex` would slice inside a multi-byte character: text
/// of even length that reaches, before any pair that is not a hex number,
/// a pair ending inside a character.
pub fn hex_decoding_panics(hex: &str) -> (r: bool)
    ensures
        r == (hex.spec_bytes().len() % 2 == 0 && pair_slicing_panics(hex.spec_bytes(), 0)),
{
    let b = hex.as_bytes();
    let ghost bs = b@;
    if b.len() % 2 != 0 {
        return false;
    }
    let mut k: usize = 0;
    while k < b.len()
        invariant
            b@ == bs,
            bs == hex.spec_bytes(),
            bs.len() % 2 == 0,
            k % 2 == 0,
            k <= bs.len(),
            pair_slicing_panics(bs, 0) == pair_slicing_panics(bs, k as int),
        decreases bs.len() - k,
    {
        let end = k + 2;
        let boundary = end == b.len() || !(128 <= b[end] && b[end] < 192);
        if !boundary {
            return true;
        }
        if pair_value_of(b[k], b[k + 1]).is_none() {
            return false;
        }
        k = end;
    }
    false
}

/// Hex text to bytes.  Text of odd length, or with a pair that is not a hex
/// number, gives `None`.  Text whose decoding would slice inside a
/// multi-byte character is left out, as slicing there panics.
pub fn hex_to_bytes(hex: &str) -> (r: Option<Vec<u8>>)
    requires
        hex.spec_bytes().len() % 2 == 0 ==> !pair_slicing_panics(hex.spec_bytes(), 0),
    ensures
        match r {
            Some(v) => hex_decode(hex.spec_bytes()) == Some(v@),
            None => hex_decode(hex.spec_bytes()) is None,
        },
{
    let b = hex.as_bytes();
    let ghost bs = b@;
    if b.len() % 2 != 0 {
        return None;
    }
    let mut out: Vec<u8> = Vec::new();
    let mut k: usize = 0;
    while k < b.len()
        invariant
            b@ == bs,
            bs == hex.spec_bytes(),
            bs.len() % 2 == 0,
            k % 2 == 0,
            k <= bs.len(),
            decode_pairs(bs, 0) == match decode_pairs(bs, k as int) {
                Some(rest) => Some(out@ + rest),
                None => None::<Seq<u8>>,
            },
        decreases bs.len() - k,
    {
        match pair_value_of(b[k], b[k + 1]) {
            None => {
                assert(decode_pairs(bs, k as int) is None);
                assert(decode_pairs(bs, 0) is None);
                assert(bs == hex.spec_bytes());
                assert(hex_decode(hex.spec_bytes()) is None);
                return None;
            },
            Some(v) => {
                let ghost out0 = out@;
                out.push(v);
                proof {
                    lemma_decode_pairs_step(bs, k as int, out0, v);
                    match decode_pairs(bs, k + 2) {
                        Some(rest) => {
                            assert(out0 + (seq![v] + rest) =~= out@ + rest);
                        },
                        None => {},
                    }
                }
                k += 2;
            },
        }
    }
    assert(decode_pairs(bs, k as int) == Some(Seq::<u8>::empty()));
    assert(out@ + Seq::<u8>::empty() =~= out@);
    Some(out)
}

/// The SHA-256 digest of `data`, as the `sha2` crate computes it.
pub uninterp spec fn sha256_digest(data: Seq<u8>) -> Seq<u8>;

/// `sha2::Sha256::digest`: the 32-byte digest of `data`.  The contract names
/// the digest; it does not state the hash function itself.
#[verifier::external_body]
pub(crate) fn sha256(data: &[u8]) -> (r: Vec<u8>)
    ensures
        r@ == sha256_digest(data@),
        r@.len() == 32,
{
    Sha256::digest(data).to_vec()
}

/// The hex SHA-256 digest of `data`: 64 lower-case hex digits.
pub fn sha256_hex(data: &[u8]) -> (r: String)
    ensures
        r@ == hex_lower(sha256_digest(data@)),
        r@.len() == 64,
{
    let d = sha256(data);
    proof {
        lemma_hex_lower_len(d@);
    }
    bytes_to_hex(d.as_slice())
}

/// Hex encoding is undone by hex decoding: decoding the hex text of any
/// bytes gives those bytes back.
pub proof fn law_hex_roundtrip(b: Seq<u8>)
    ensures
        hex_decode(hex_ascii_bytes(hex_lower(b))) == Some(b),
{
    lemma_hex_lower_len(b);
    lemma_roundtrip_from(b, 0);
    assert(hex_ascii_bytes(hex_lower(b)).len() == 2 * b.len());
    assert(b.skip(0) =~= b);
}

/// The UTF-8 bytes of ASCII text: one byte per character.
pub open spec fn hex_ascii_bytes(s: Seq<char>) -> Seq<u8> {
    s.map_values(|c: char| c as u8)
}

proof fn lemma_hex_lower_index(b: Seq<u8>, i: int)
    requires
        0 <= i < b.len(),
    ensures
        hex_lower(b).len() == 2 * b.len(),
        hex_lower(b)[2 * i] == hex_digit((b[i] / 16) as nat),
        hex_lower(b)[2 * i + 1] == hex_digit((b[i] % 16) as nat),
    decreases b.len(),
{
    lemma_hex_lower_len(b);
    lemma_hex_lower_len(b.drop_last());
    if i < b.len() - 1 {
        lemma_hex_lower_index(b.drop_last(), i);
    }
}

proof fn lemma_digit_roundtrip(n: nat)
    requires
        n < 16,
    ensures
        hex_value(hex_digit(n) as u8) == Some(n),
{
}

proof fn lemma_roundtrip_from(b: Seq<u8>, i: int)
    requires
        0 <= i <= b.len(),
    ensures
        decode_pairs(hex_ascii_bytes(hex_lower(b)), 2 * i) == Some(b.skip(i)),
    decreases b.len() - i,
{
    let h = hex_ascii_bytes(hex_lower(b));
    lemma_hex_lower_len(b);
    if i < b.len() {
        lemma_hex_lower_index(b, i);
        let hi = (b[i] / 16) as nat;
        let lo = (b[i] % 16) as nat;
        lemma_digit_roundtrip(hi);
        lemma_digit_roundtrip(lo);
        assert(h[2 * i] == hex_digit(hi) as u8);
        assert(h[2 * i + 1] == hex_digit(lo) as u8);
        assert(hex_digit(hi) as u8 != 43);
        assert(pair_value(h[2 * i], h[2 * i + 1]) == Some(b[i]));
        lemma_roundtrip_from(b, i + 1);
        assert(seq![b[i]] + b.skip(i + 1) =~= b.skip(i));
    } else {
        assert(b.skip(i) =~= Seq::<u8>::empty());
    }
}

} // verus!
