//! Opaque worker identifiers: a random number, hashed and written in
//! lowercase hexadecimal.
use vstd::prelude::*;
use std::collections::hash_map::DefaultHasher;
use std::hash::Hasher;
use vstd::std_specs::hash::DefaultHasherAdditionalSpecFns;

verus! {

/// The lowercase hexadecimal digit of `d` (for `d < 16`).
pub open spec fn hex_char(d: nat) -> char {
    if d < 10 {
        ((d + 48) as u8) as char
    } else {
        ((d + 87) as u8) as char
    }
}

/// The lowercase hexadecimal numeral of `n`, without leading zeros.
pub open spec fn hex_digits(n: nat) -> Seq<char>
    decreases n,
{
    if n < 16 {
        seq![hex_char(n)]
    } else {
        hex_digits(n / 16).push(hex_char(n % 16))
    }
}

/// The value of a hexadecimal digit.
pub open spec fn hex_char_value(c: char) -> nat {
    if '0' <= c && c <= '9' {
        (c as nat - 48) as nat
    } else if 'a' <= c && c <= 'f' {
        (c as nat - 87) as nat
    } else {
        0
    }
}

/// Whether `c` is a lowercase hexadecimal digit.
pub open spec fn is_hex_char(c: char) -> bool {
    ('0' <= c && c <= '9') || ('a' <= c && c <= 'f')
}

proof fn lemma_hex_char(d: nat)
    requires
        d < 16,
    ensures
        hex_char_value(hex_char(d)) == d,
        is_hex_char(hex_char(d)),
        hex_char(d) == '0' <==> d == 0,
{
    let c = hex_char(d);
    if d < 10 {
        assert((d + 48) as u8 == d + 48);
        assert(c as nat == d + 48);
    } else {
        assert((d + 87) as u8 == d + 87);
        assert(c as nat == d + 87);
    }
}

/// The number that a sequence of hexadecimal digits denotes.
pub open spec fn hex_value(s: Seq<char>) -> nat
    decreases s.len(),
{
    if s.len() == 0 {
        0
    } else {
        hex_value(s.drop_last()) * 16 + hex_char_value(s.last())
    }
}

/// A worker identifier: the hexadecimal numeral of the hash that std's
/// `DefaultHasher` gives for one write of some bytes.
pub open spec fn is_worker_id(s: Seq<char>) -> bool {
    exists|b: Seq<u8>| s == hex_digits(DefaultHasher::spec_finish(seq![b]) as nat)
}

/// The numeral of `n` is made of lowercase hexadecimal digits, is at most
/// 16 digits long for a 64-bit number, starts with a nonzero digit unless
/// `n` is zero, and denotes `n`.
pub proof fn lemma_hex_digits(n: nat)
    ensures
        hex_value(hex_digits(n)) == n,
        1 <= hex_digits(n).len(),
        n < 0x1_0000_0000_0000_0000 ==> hex_digits(n).len() <= 16,
        forall|i: int| 0 <= i < hex_digits(n).len() ==> is_hex_char(#[trigger] hex_digits(n)[i]),
        n > 0 ==> hex_digits(n)[0] != '0',
    decreases n,
{
    if n < 16 {
        lemma_hex_char(n);
        assert(hex_digits(n).drop_last() =~= Seq::<char>::empty());
        assert(hex_value(Seq::<char>::empty()) == 0);
    } else {
        lemma_hex_digits(n / 16);
        lemma_hex_char(n % 16);
        let s = hex_digits(n);
        assert(s.drop_last() =~= hex_digits(n / 16));
        assert(s[0] == hex_digits(n / 16)[0]);
        assert forall|i: int| 0 <= i < s.len() implies is_hex_char(#[trigger] s[i]) by {
            if i < s.len() - 1 {
                assert(s[i] == hex_digits(n / 16)[i]);
            }
        }
        assert(hex_value(s) == hex_value(hex_digits(n / 16)) * 16 + hex_char_value(hex_char(n % 16)));
        assert((n / 16) * 16 + n % 16 == n) by (nonlinear_arith);
        if n < 0x1_0000_0000_0000_0000 {
            assert(pow16(16) == 0x1_0000_0000_0000_0000) by {
                reveal_with_fuel(pow16, 17);
            }
            lemma_hex_len(n, 16);
        }
    }
}

proof fn lemma_hex_len(n: nat, k: nat)
    requires
        n < pow16(k),
        1 <= k,
    ensures
        hex_digits(n).len() <= k,
    decreases k,
{
    if n >= 16 {
        if k == 1 {
            assert(pow16(1) == 16 * pow16(0));
        } else {
            let p = pow16((k - 1) as nat);
            assert(pow16(k) == 16 * p);
            assert(n / 16 < p) by (nonlinear_arith)
                requires
                    n < 16 * p,
            ;
            lemma_hex_len(n / 16, (k - 1) as nat);
        }
    }
}

spec fn pow16(k: nat) -> nat
    decreases k,
{
    if k == 0 { 1 } else { 16 * pow16((k - 1) as nat) }
}

fn hex_digit_str(d: u64) -> (s: &'static str)
    requires
        d < 16,
    ensures
        s@ == seq![hex_char(d as nat)],
{
    match d {
        0 => { proof { reveal_strlit("0"); } "0" }
        1 => { proof { reveal_strlit("1"); } "1" }
        2 => { proof { reveal_strlit("2"); } "2" }
        3 => { proof { reveal_strlit("3"); } "3" }
        4 => { proof { reveal_strlit("4"); } "4" }
        5 => { proof { reveal_strlit("5"); } "5" }
        6 => { proof { reveal_strlit("6"); } "6" }
        7 => { proof { reveal_strlit("7"); } "7" }
        8 => { proof { reveal_strlit("8"); } "8" }
        9 => { proof { reveal_strlit("9"); } "9" }
        10 => { proof { reveal_strlit("a"); } "a" }
        11 => { proof { reveal_strlit("b"); } "b" }
        12 => { proof { reveal_strlit("c"); } "c" }
        13 => { proof { reveal_strlit("d"); } "d" }
        14 => { proof { reveal_strlit("e"); } "e" }
        _ => { proof { reveal_strlit("f"); } "f" }
    }
}

/// Writes `n` in lowercase hexadecimal without leading zeros, as the `{:x}`
/// format does.
pub fn to_hex(n: u64) -> (s: String)
    ensures
        s@ == hex_digits(n as nat),
{
    // Collect the digits from the least significant one.
    let mut digits: Vec<u64> = Vec::new();
    let mut m: u64 = n;
    while m >= 16
        invariant
            hex_digits(n as nat) == hex_digits(m as nat) + digits@.reverse().map_values(|d: u64| hex_char(d as nat)),
            forall|i: int| 0 <= i < digits.len() ==> #[trigger] digits@[i] < 16,
        decreases m,
    {
        let d = m % 16;
        proof {
            let old_tail = digits@.reverse().map_values(|d: u64| hex_char(d as nat));
            assert(hex_digits(m as nat) == hex_digits((m / 16) as nat).push(hex_char(d as nat)));
            assert(digits@.push(d).reverse() =~= seq![d] + digits@.reverse());
            assert(digits@.push(d).reverse().map_values(|d: u64| hex_char(d as nat))
                =~= seq![hex_char(d as nat)] + old_tail);
            assert(hex_digits((m / 16) as nat).push(hex_char(d as nat)) + old_tail
                =~= hex_digits((m / 16) as nat) + (seq![hex_char(d as nat)] + old_tail));
        }
        digits.push(d);
        m = m / 16;
    }
    let mut s = String::new();
    s.append(hex_digit_str(m));
    let k = digits.len();
    let mut i: usize = 0;
    proof {
        assert(hex_digits(m as nat) =~= seq![hex_char(m as nat)]);
    }
    while i < k
        invariant
            k == digits.len(),
            i <= k,
            forall|j: int| 0 <= j < digits.len() ==> #[trigger] digits@[j] < 16,
            hex_digits(n as nat) == s@ + digits@.take(k - i).reverse().map_values(|d: u64| hex_char(d as nat)),
        decreases k - i,
    {
        let d = digits[k - 1 - i];
        proof {
            let t = digits@.take(k - i);
            assert(t.reverse() =~= seq![d] + digits@.take(k - i - 1).reverse());
            assert(t.reverse().map_values(|d: u64| hex_char(d as nat))
                =~= seq![hex_char(d as nat)] + digits@.take(k - i - 1).reverse().map_values(|d: u64| hex_char(d as nat)));
        }
        let ghost before = s@;
        s.append(hex_digit_str(d));
        proof {
            assert(s@ == before + seq![hex_char(d as nat)]);
            assert(before + (seq![hex_char(d as nat)] + digits@.take(k - i - 1).reverse().map_values(|d: u64| hex_char(d as nat)))
                =~= s@ + digits@.take(k - i - 1).reverse().map_values(|d: u64| hex_char(d as nat)));
        }
        i = i + 1;
    }
    proof {
        assert(digits@.take(0).reverse().map_values(|d: u64| hex_char(d as nat)) =~= Seq::<char>::empty());
        assert(s@ + Seq::<char>::empty() =~= s@);
    }
    s
}

/// Calls `rand::random::<usize>()`, which draws from the thread-local
/// random number generator. The result is chance: nothing is claimed of it.
#[verifier::external_body]
fn random_usize() -> usize {
    rand::random::<usize>()
}

/// `b` is the native-order encoding of `v`: its little- or big-endian
/// bytes, as many as `usize` has.
pub open spec fn usize_native_bytes(v: usize, b: Seq<u8>) -> bool {
    ||| usize::BITS == 64 && (b == vstd::bytes::spec_u64_to_le_bytes(v as u64)
        || b == vstd::bytes::spec_u64_to_le_bytes(v as u64).reverse())
    ||| usize::BITS == 32 && (b == vstd::bytes::spec_u32_to_le_bytes(v as u32)
        || b == vstd::bytes::spec_u32_to_le_bytes(v as u32).reverse())
}

/// Calls `Hasher::write_usize` on a std `DefaultHasher`, which feeds one
/// `usize` into the hasher as one write of its native-order bytes. The
/// claim is that the hasher's record of writes grows by exactly that byte
/// sequence; which of the two byte orders is left open, as it depends on
/// the machine.
#[verifier::external_body]
fn hasher_write_usize(hasher: &mut DefaultHasher, value: usize)
    ensures
        final(hasher)@.len() == old(hasher)@.len() + 1,
        final(hasher)@.drop_last() == old(hasher)@,
        usize_native_bytes(value, final(hasher)@.last()),
{
    hasher.write_usize(value)
}

/// The identifier made from `value`: the lowercase hexadecimal numeral of
/// the hash that std's `DefaultHasher` gives after `value` was written to it.
pub fn id_from(value: usize) -> (s: String)
    ensures
        exists|b: Seq<u8>| usize_native_bytes(value, b)
            && s@ == hex_digits(DefaultHasher::spec_finish(seq![b]) as nat),
{
    let mut hasher = DefaultHasher::new();
    hasher_write_usize(&mut hasher, value);
    let h = hasher.finish();
    let s = to_hex(h);
    proof {
        let b = hasher@.last();
        assert(hasher@ =~= seq![b]);
        assert(s@ == hex_digits(DefaultHasher::spec_finish(seq![b]) as nat));
    }
    s
}

/// Generate a random opaque identifier: a random `usize` is hashed with
/// std's `DefaultHasher` and the hash is written in lowercase hexadecimal.
pub fn id() -> (s: String)
    ensures
        is_worker_id(s@),
{
    id_from(random_usize())
}

/// A worker identifier is one to sixteen lowercase hexadecimal digits,
/// without leading zeros unless it is `0`.
pub proof fn lemma_worker_id_shape(s: Seq<char>)
    requires
        is_worker_id(s),
    ensures
        1 <= s.len() <= 16,
        forall|i: int| 0 <= i < s.len() ==> is_hex_char(#[trigger] s[i]),
        s.len() > 1 ==> s[0] != '0',
        hex_value(s) <= u64::MAX,
{
    let b = choose|b: Seq<u8>| s == hex_digits(DefaultHasher::spec_finish(seq![b]) as nat);
    let h = DefaultHasher::spec_finish(seq![b]);
    lemma_hex_digits(h as nat);
    if s.len() > 1 && h == 0 {
        assert(hex_digits(0) == seq![hex_char(0)]);
    }
}

}
