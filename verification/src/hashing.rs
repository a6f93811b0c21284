//! One-way hashing of opaque token secrets: SHA-256 behind a trusted
//! wrapper, with the hex encoding of the digest verified here.

use vstd::prelude::*;

verus! {

use crate::text::push_char;

/// The SHA-256 digest of a string's bytes.  The digest depends on the
/// characters alone, so it is left as a named, uninterpreted function.
pub uninterp spec fn sha256_of(s: Seq<char>) -> Seq<u8>;

/// Relies on sha2::Sha256::digest: a 32-byte digest computed from the
/// input bytes alone.
#[verifier::external_body]
pub(crate) fn sha256_str(s: &str) -> (r: Vec<u8>)
    ensures
        r@ == sha256_of(s@),
        r@.len() == 32,
{
    <sha2::Sha256 as sha2::Digest>::digest(s.as_bytes()).to_vec()
}

/// The lower-case hex character for a nibble.
pub open spec fn hex_digit_char(d: int) -> char {
    if d == 0 { '0' } else if d == 1 { '1' } else if d == 2 { '2' }
    else if d == 3 { '3' } else if d == 4 { '4' } else if d == 5 { '5' }
    else if d == 6 { '6' } else if d == 7 { '7' } else if d == 8 { '8' }
    else if d == 9 { '9' } else if d == 10 { 'a' } else if d == 11 { 'b' }
    else if d == 12 { 'c' } else if d == 13 { 'd' } else if d == 14 { 'e' }
    else { 'f' }
}

/// The lower-case hex encoding of a byte sequence, two digits per byte.
pub open spec fn hex_of(bytes: Seq<u8>) -> Seq<char>
    decreases bytes.len(),
{
    if bytes.len() == 0 {
        Seq::empty()
    } else {
        hex_of(bytes.drop_last())
            .push(hex_digit_char(bytes.last() as int / 16))
            .push(hex_digit_char(bytes.last() as int % 16))
    }
}

pub(crate) fn hex_digit(d: u8) -> (c: char)
    requires
        d < 16,
    ensures
        c == hex_digit_char(d as int),
{
    match d {
        0 => '0',
        1 => '1',
        2 => '2',
        3 => '3',
        4 => '4',
        5 => '5',
        6 => '6',
        7 => '7',
        8 => '8',
        9 => '9',
        10 => 'a',
        11 => 'b',
        12 => 'c',
        13 => 'd',
        14 => 'e',
        _ => 'f',
    }
}

/// Encodes a byte sequence as lower-case hex.
pub fn hex_encode(bytes: &Vec<u8>) -> (r: String)
    ensures
        r@ == hex_of(bytes@),
        r@.len() == 2 * bytes@.len(),
{
    let mut r = String::new();
    let mut i: usize = 0;
    while i < bytes.len()
        invariant
            i <= bytes@.len(),
            r@ == hex_of(bytes@.subrange(0, i as int)),
            r@.len() == 2 * i,
        decreases bytes@.len() - i,
    {
        let b = bytes[i];
        push_char(&mut r, hex_digit(b / 16));
        push_char(&mut r, hex_digit(b % 16));
        proof {
            assert(bytes@.subrange(0, i + 1).drop_last() =~= bytes@.subrange(0, i as int));
            assert(bytes@.subrange(0, i + 1).last() == bytes@[i as int]);
        }
        i = i + 1;
    }
    proof {
        assert(bytes@.subrange(0, bytes@.len() as int) =~= bytes@);
    }
    r
}

/// Whether a character is a lower-case hex digit.
pub open spec fn is_lower_hex_digit(c: char) -> bool {
    (48 <= c as int && c as int <= 57) || (97 <= c as int && c as int <= 102)
}

/// Every character of a hex encoding is a lower-case hex digit.
pub proof fn lemma_hex_of_digits(bytes: Seq<u8>)
    ensures
        forall|i: int|
            0 <= i < hex_of(bytes).len() ==> is_lower_hex_digit(#[trigger] hex_of(bytes)[i]),
    decreases bytes.len(),
{
    if bytes.len() > 0 {
        lemma_hex_of_digits(bytes.drop_last());
        let inner = hex_of(bytes.drop_last());
        assert forall|i: int| 0 <= i < hex_of(bytes).len() implies is_lower_hex_digit(
            hex_of(bytes)[i],
        ) by {
            if i < inner.len() {
                assert(hex_of(bytes)[i] == inner[i]);
            } else {
                assert(0 <= bytes.last() as int / 16 < 16);
                assert(0 <= bytes.last() as int % 16 < 16);
            }
        }
    }
}

/// The hash under which an opaque token secret is stored: the hex
/// encoding of its SHA-256 digest.
pub open spec fn token_hash_of(s: Seq<char>) -> Seq<char> {
    hex_of(sha256_of(s))
}

/// Hashes an opaque token secret for storage.
pub fn sha256_hex(s: &str) -> (r: String)
    ensures
        r@ == token_hash_of(s@),
        r@.len() == 64,
{
    let digest = sha256_str(s);
    hex_encode(&digest)
}

} // verus!
