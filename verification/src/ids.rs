//! The opaque user identifier: a 128-bit value carried in tokens as its
//! canonical hyphenated hex form.  Formatting and parsing are verified
//! here, with a round-trip proof: parsing a formatted identifier always
//! recovers the identifier.

use vstd::prelude::*;

verus! {

use vstd::arithmetic::div_mod::{lemma_breakdown, lemma_div_denominator, lemma_small_mod};
use crate::hashing::hex_digit_char;
use crate::text::push_char;

/// A stable, immutable user identifier.
#[derive(Debug, Clone, Copy, PartialEq, Eq, Structural)]
pub struct UserId {
    pub value: u128,
}

/// Sixteen to the power `i`.
pub open spec fn pow16(i: int) -> int
    decreases i,
{
    if i <= 0 {
        1
    } else {
        16 * pow16(i - 1)
    }
}

proof fn lemma_pow16_pos(i: int)
    ensures
        pow16(i) >= 1,
    decreases i,
{
    if i > 0 {
        lemma_pow16_pos(i - 1);
    }
}

proof fn lemma_pow16_mono(a: int, b: int)
    requires
        a <= b,
    ensures
        pow16(a) <= pow16(b),
    decreases b - a,
{
    if a < b {
        lemma_pow16_mono(a, b - 1);
        lemma_pow16_pos(b - 1);
    }
}

/// Nibble `i` (counting from the least significant) of a non-negative
/// integer.
pub open spec fn nib(x: int, i: int) -> int {
    (x / pow16(i)) % 16
}

/// The numeric value of a hex digit character, or -1 for any other
/// character.  Upper and lower case are both accepted.
pub open spec fn hex_val(c: char) -> int {
    let n = c as int;
    if 48 <= n <= 57 {
        n - 48
    } else if 97 <= n <= 102 {
        n - 87
    } else if 65 <= n <= 70 {
        n - 55
    } else {
        -1
    }
}

pub open spec fn is_hex_digit(c: char) -> bool {
    hex_val(c) >= 0
}

/// Whether position `p` of the 36-character form holds a hyphen.
pub open spec fn is_hyphen_pos(p: int) -> bool {
    p == 8 || p == 13 || p == 18 || p == 23
}

/// The index (from the left) of the digit at non-hyphen position `p`.
pub open spec fn digit_index(p: int) -> int {
    if p < 8 {
        p
    } else if p < 13 {
        p - 1
    } else if p < 18 {
        p - 2
    } else if p < 23 {
        p - 3
    } else {
        p - 4
    }
}

/// The position of the digit with index `j` (from the left).
pub open spec fn digit_pos(j: int) -> int {
    if j < 8 {
        j
    } else if j < 12 {
        j + 1
    } else if j < 16 {
        j + 2
    } else if j < 20 {
        j + 3
    } else {
        j + 4
    }
}

/// The character at position `p` of the canonical form of `v`.
pub open spec fn uuid_char_at(v: u128, p: int) -> char {
    if is_hyphen_pos(p) {
        '-'
    } else {
        hex_digit_char(nib(v as int, 31 - digit_index(p)))
    }
}

/// The canonical hyphenated lower-case hex form of a 128-bit value:
/// 32 hex digits, most significant first, in groups of 8-4-4-4-12.
pub open spec fn uuid_str_of(v: u128) -> Seq<char> {
    Seq::new(36, |p: int| uuid_char_at(v, p))
}

/// Whether a sequence has the hyphenated shape: 36 characters, hyphens
/// exactly at the group boundaries, hex digits everywhere else.
pub open spec fn uuid_shape_ok(s: Seq<char>) -> bool {
    &&& s.len() == 36
    &&& forall|p: int|
        0 <= p < 36 ==> if is_hyphen_pos(p) {
            #[trigger] s[p] == '-'
        } else {
            is_hex_digit(s[p])
        }
}

/// The 32 digit characters of a well-shaped sequence, in order.
pub open spec fn uuid_digits(s: Seq<char>) -> Seq<char> {
    Seq::new(32, |j: int| s[digit_pos(j)])
}

/// The value of a sequence of hex digits, most significant first.
pub open spec fn be_val(ds: Seq<char>) -> int
    decreases ds.len(),
{
    if ds.len() == 0 {
        0
    } else {
        be_val(ds.drop_last()) * 16 + hex_val(ds.last())
    }
}

/// What parsing a candidate identifier string yields: the digits'
/// value for a well-shaped string, nothing otherwise.
pub open spec fn uuid_parse_spec(s: Seq<char>) -> Option<u128> {
    if uuid_shape_ok(s) {
        Some(be_val(uuid_digits(s)) as u128)
    } else {
        None
    }
}

proof fn lemma_hex_val_of_digit(d: int)
    requires
        0 <= d < 16,
    ensures
        hex_val(hex_digit_char(d)) == d,
{
}

proof fn lemma_nib_range(x: int, i: int)
    requires
        0 <= x,
    ensures
        0 <= nib(x, i) < 16,
{
    lemma_pow16_pos(i);
}

proof fn lemma_nib_shift(x: int, i: int)
    requires
        0 <= x,
        0 <= i,
    ensures
        nib(x, i + 1) == nib(x / 16, i),
{
    lemma_pow16_pos(i);
    lemma_div_denominator(x, 16, pow16(i));
    assert(16 * pow16(i) == pow16(i + 1));
    assert((x / 16) / pow16(i) == x / pow16(i + 1));
}

/// The big-endian digits of `x` taken `n` at a time read back as
/// `x % 16^n`.
proof fn lemma_be_val_of_nibs(x: int, n: int)
    requires
        0 <= x,
        0 <= n,
    ensures
        be_val(Seq::new(n as nat, |j: int| hex_digit_char(nib(x, n - 1 - j)))) == x % pow16(n),
    decreases n,
{
    let ds = Seq::new(n as nat, |j: int| hex_digit_char(nib(x, n - 1 - j)));
    if n == 0 {
        assert(x % pow16(0) == 0) by {
            lemma_small_mod(0, 1);
            assert(pow16(0) == 1);
            assert(x % 1 == 0) by {
                lemma_breakdown(x, 1, 1);
            }
        }
    } else {
        let prev = Seq::new((n - 1) as nat, |j: int| hex_digit_char(nib(x / 16, n - 2 - j)));
        assert(ds.drop_last() =~= prev) by {
            assert forall|j: int| 0 <= j < n - 1 implies ds.drop_last()[j] == prev[j] by {
                lemma_nib_shift(x, n - 2 - j);
            }
        }
        assert(0 <= x / 16) by {
            vstd::arithmetic::div_mod::lemma_div_pos_is_pos(x, 16);
        }
        lemma_be_val_of_nibs(x / 16, n - 1);
        assert(ds.last() == hex_digit_char(nib(x, 0)));
        assert(nib(x, 0) == x % 16);
        lemma_nib_range(x, 0);
        lemma_hex_val_of_digit(x % 16);
        lemma_pow16_pos(n - 1);
        lemma_breakdown(x, 16, pow16(n - 1));
        assert(x % (16 * pow16(n - 1)) == 16 * ((x / 16) % pow16(n - 1)) + x % 16);
        assert(16 * pow16(n - 1) == pow16(n));
        assert(be_val(ds) == be_val(prev) * 16 + x % 16);
        assert(be_val(prev) == (x / 16) % pow16(n - 1));
    }
}

proof fn lemma_pow16_add(a: int, b: int)
    requires
        0 <= a,
        0 <= b,
    ensures
        pow16(a + b) == pow16(a) * pow16(b),
    decreases a,
{
    if a == 0 {
    } else {
        lemma_pow16_add(a - 1, b);
        assert(pow16(a + b) == 16 * pow16(a - 1 + b));
        assert(16 * (pow16(a - 1) * pow16(b)) == (16 * pow16(a - 1)) * pow16(b))
            by (nonlinear_arith);
    }
}

proof fn lemma_pow16_32()
    ensures
        pow16(32) == 0x1_0000_0000_0000_0000_0000_0000_0000_0000,
{
    reveal_with_fuel(pow16, 9);
    assert(pow16(8) == 0x1_0000_0000);
    lemma_pow16_add(8, 8);
    assert(pow16(16) == 0x1_0000_0000_0000_0000);
    lemma_pow16_add(16, 16);
}

/// Round trip: parsing the canonical form of an identifier always
/// recovers the identifier.
pub proof fn lemma_uuid_round_trip(v: u128)
    ensures
        uuid_parse_spec(uuid_str_of(v)) == Some(v),
{
    let s = uuid_str_of(v);
    assert forall|p: int| 0 <= p < 36 && !is_hyphen_pos(p) implies is_hex_digit(s[p]) by {
        lemma_nib_range(v as int, 31 - digit_index(p));
        lemma_hex_val_of_digit(nib(v as int, 31 - digit_index(p)));
    }
    assert(uuid_shape_ok(s));
    let ds = uuid_digits(s);
    let target = Seq::new(32, |j: int| hex_digit_char(nib(v as int, 31 - j)));
    assert(ds =~= target) by {
        assert forall|j: int| 0 <= j < 32 implies ds[j] == target[j] by {
            assert(digit_index(digit_pos(j)) == j);
            assert(!is_hyphen_pos(digit_pos(j)));
        }
    }
    lemma_be_val_of_nibs(v as int, 32);
    lemma_pow16_32();
    lemma_small_mod(v as nat, pow16(32) as nat);
    assert(be_val(ds) == v as int);
}

fn hyphen_at(p: usize) -> (r: bool)
    ensures
        r == is_hyphen_pos(p as int),
{
    p == 8 || p == 13 || p == 18 || p == 23
}

fn digit_index_exec(p: usize) -> (j: usize)
    requires
        p < 36,
        !is_hyphen_pos(p as int),
    ensures
        j as int == digit_index(p as int),
        j < 32,
{
    if p < 8 {
        p
    } else if p < 13 {
        p - 1
    } else if p < 18 {
        p - 2
    } else if p < 23 {
        p - 3
    } else {
        p - 4
    }
}

fn hex_val_exec(c: char) -> (r: Option<u8>)
    ensures
        match r {
            Some(d) => hex_val(c) == d as int && d < 16,
            None => !is_hex_digit(c),
        },
{
    let n = c as u32;
    if 48 <= n && n <= 57 {
        Some((n - 48) as u8)
    } else if 97 <= n && n <= 102 {
        Some((n - 87) as u8)
    } else if 65 <= n && n <= 70 {
        Some((n - 55) as u8)
    } else {
        None
    }
}

impl UserId {
    /// The canonical hyphenated lower-case hex form of this identifier.
    pub fn to_hyphenated(&self) -> (r: String)
        ensures
            r@ == uuid_str_of(self.value),
    {
        let v = self.value;
        let mut nibs: Vec<u8> = Vec::new();
        let mut t: u128 = v;
        let mut k: usize = 0;
        while k < 32
            invariant
                k <= 32,
                nibs@.len() == k,
                t as int == v as int / pow16(k as int),
                forall|j: int| 0 <= j < k ==> #[trigger] nibs@[j] as int == nib(v as int, j),
            decreases 32 - k,
        {
            let d: u8 = (t % 16) as u8;
            proof {
                assert(d as int == nib(v as int, k as int));
                lemma_pow16_pos(k as int);
                lemma_div_denominator(v as int, pow16(k as int), 16);
                assert(pow16(k as int) * 16 == 16 * pow16(k as int));
                assert((v as int / pow16(k as int)) / 16 == v as int / pow16(k as int + 1));
            }
            nibs.push(d);
            t = t / 16;
            k = k + 1;
        }
        let mut r = String::new();
        let mut p: usize = 0;
        while p < 36
            invariant
                p <= 36,
                r@.len() == p,
                nibs@.len() == 32,
                forall|j: int| 0 <= j < 32 ==> #[trigger] nibs@[j] as int == nib(v as int, j),
                forall|q: int| 0 <= q < p ==> #[trigger] r@[q] == uuid_char_at(v, q),
            decreases 36 - p,
        {
            if hyphen_at(p) {
                push_char(&mut r, '-');
            } else {
                let j = digit_index_exec(p);
                let d = nibs[31 - j];
                proof {
                    lemma_nib_range(v as int, 31 - j as int);
                }
                push_char(&mut r, crate::hashing::hex_digit(d));
            }
            p = p + 1;
        }
        proof {
            assert(r@ =~= uuid_str_of(v));
        }
        r
    }

    /// Parses the canonical hyphenated hex form (either case) into an
    /// identifier; any other string is rejected.
    pub fn parse_hyphenated(s: &str) -> (r: Option<UserId>)
        ensures
            match uuid_parse_spec(s@) {
                Some(v) => r matches Some(u) && u.value == v,
                None => r is None,
            },
    {
        let n = s.unicode_len();
        if n != 36 {
            return None;
        }
        let mut acc: u128 = 0;
        let mut p: usize = 0;
        let ghost mut k: int = 0;
        while p < 36
            invariant
                p <= 36,
                n == 36,
                s@.len() == 36,
                k == digit_count(p as int),
                0 <= k <= 32,
                acc as int == be_val(Seq::new(k as nat, |j: int| s@[digit_pos(j)])),
                (acc as int) < pow16(k),
                forall|q: int|
                    0 <= q < p ==> if is_hyphen_pos(q) {
                        #[trigger] s@[q] == '-'
                    } else {
                        is_hex_digit(s@[q])
                    },
            decreases 36 - p,
        {
            let c = s.get_char(p);
            if hyphen_at(p) {
                if c != '-' {
                    return None;
                }
            } else {
                let d = match hex_val_exec(c) {
                    Some(d) => d,
                    None => {
                        return None;
                    },
                };
                proof {
                    assert(digit_pos(k) == p as int);
                    lemma_pow16_pos(k);
                    let prev = Seq::new(k as nat, |j: int| s@[digit_pos(j)]);
                    let next = Seq::new((k + 1) as nat, |j: int| s@[digit_pos(j)]);
                    assert(next.drop_last() =~= prev);
                    assert(next.last() == s@[p as int]);
                    assert(acc as int * 16 + (d as int) < pow16(k + 1));
                    lemma_pow16_mono(k + 1, 32);
                    lemma_pow16_32();
                }
                acc = acc * 16 + (d as u128);
                proof {
                    k = k + 1;
                }
            }
            p = p + 1;
        }
        proof {
            assert(k == 32);
            assert(uuid_shape_ok(s@));
            assert(Seq::new(32, |j: int| s@[digit_pos(j)]) =~= uuid_digits(s@));
        }
        Some(UserId { value: acc })
    }
}

/// Assembles an identifier from 16 bytes, most significant first.
pub(crate) fn user_id_from_bytes(bytes: &Vec<u8>) -> (r: UserId)
    requires
        bytes@.len() == 16,
{
    let mut acc: u128 = 0;
    let mut k: usize = 0;
    while k < 16
        invariant
            k <= 16,
            bytes@.len() == 16,
            (acc as int) < pow16(2 * k as int),
        decreases 16 - k,
    {
        let b = bytes[k];
        proof {
            assert(pow16(2 * (k as int) + 2) == 16 * pow16(2 * (k as int) + 1));
            assert(pow16(2 * (k as int) + 1) == 16 * pow16(2 * (k as int)));
            assert(acc as int * 256 + (b as int) < 256 * pow16(2 * (k as int)));
            lemma_pow16_mono(2 * (k as int) + 2, 32);
            lemma_pow16_32();
        }
        acc = acc * 256 + (b as u128);
        k = k + 1;
    }
    UserId { value: acc }
}

/// How many digit positions lie strictly before position `p`.
pub open spec fn digit_count(p: int) -> int {
    if p <= 8 {
        p
    } else if p <= 13 {
        p - 1
    } else if p <= 18 {
        p - 2
    } else if p <= 23 {
        p - 3
    } else {
        p - 4
    }
}

} // verus!
