//! Little-endian integers as they stand in instruction data and in the
//! persisted record.

use vstd::prelude::*;

verus! {

/// The number that eight bytes spell, least significant byte first.
pub open spec fn spec_u64_from_le(s: Seq<u8>) -> nat
    recommends
        s.len() == 8,
{
    (s[0] as nat) + (s[1] as nat) * 0x100 + (s[2] as nat) * 0x1_0000 + (s[3] as nat) * 0x100_0000
        + (s[4] as nat) * 0x1_0000_0000 + (s[5] as nat) * 0x100_0000_0000 + (s[6] as nat)
        * 0x1_0000_0000_0000 + (s[7] as nat) * 0x100_0000_0000_0000
}

/// The eight bytes that spell `v`, least significant byte first: each byte
/// is what is left of `v` below 256 after the bytes before it were taken off.
pub open spec fn spec_u64_to_le(v: u64) -> Seq<u8> {
    let v1 = v / 0x100;
    let v2 = v1 / 0x100;
    let v3 = v2 / 0x100;
    let v4 = v3 / 0x100;
    let v5 = v4 / 0x100;
    let v6 = v5 / 0x100;
    let v7 = v6 / 0x100;
    seq![
        (v % 0x100) as u8,
        (v1 % 0x100) as u8,
        (v2 % 0x100) as u8,
        (v3 % 0x100) as u8,
        (v4 % 0x100) as u8,
        (v5 % 0x100) as u8,
        (v6 % 0x100) as u8,
        (v7 % 0x100) as u8,
    ]
}

/// Eight bytes always spell a number that fits in `u64`.
pub proof fn lemma_u64_from_le_fits(s: Seq<u8>)
    ensures
        spec_u64_from_le(s) <= u64::MAX,
{
}

/// Spelling a number and reading it back gives the number.
pub proof fn lemma_u64_le_round_trip(v: u64)
    ensures
        spec_u64_to_le(v).len() == 8,
        spec_u64_from_le(spec_u64_to_le(v)) == v,
{
    let v1 = v / 0x100;
    let v2 = v1 / 0x100;
    let v3 = v2 / 0x100;
    let v4 = v3 / 0x100;
    let v5 = v4 / 0x100;
    let v6 = v5 / 0x100;
    let v7 = v6 / 0x100;
    assert(v == v % 0x100 + v1 * 0x100);
    assert(v1 == v1 % 0x100 + v2 * 0x100);
    assert(v2 == v2 % 0x100 + v3 * 0x100);
    assert(v3 == v3 % 0x100 + v4 * 0x100);
    assert(v4 == v4 % 0x100 + v5 * 0x100);
    assert(v5 == v5 % 0x100 + v6 * 0x100);
    assert(v6 == v6 % 0x100 + v7 * 0x100);
    assert(v7 < 0x100);
    let s = spec_u64_to_le(v);
    assert(s[0] == v % 0x100 && s[1] == v1 % 0x100 && s[2] == v2 % 0x100 && s[3] == v3 % 0x100);
    assert(s[4] == v4 % 0x100 && s[5] == v5 % 0x100 && s[6] == v6 % 0x100 && s[7] == v7);
}

/// What is left of the number that `s` spells once its first `k` bytes are
/// taken off.
spec fn tail_value(s: Seq<u8>, k: int) -> nat
    decreases 8 - k,
{
    if k >= 8 {
        0
    } else {
        (s[k] as nat) + 0x100 * tail_value(s, k + 1)
    }
}

/// Reading eight bytes and spelling the number gives the bytes.
pub proof fn lemma_u64_le_bytes_round_trip(s: Seq<u8>)
    requires
        s.len() == 8,
    ensures
        spec_u64_from_le(s) <= u64::MAX,
        spec_u64_to_le(spec_u64_from_le(s) as u64) == s,
{
    reveal_with_fuel(tail_value, 9);
    let n = spec_u64_from_le(s) as u64;
    assert(n == tail_value(s, 0));
    let t1 = tail_value(s, 1);
    let t2 = tail_value(s, 2);
    let t3 = tail_value(s, 3);
    let t4 = tail_value(s, 4);
    let t5 = tail_value(s, 5);
    let t6 = tail_value(s, 6);
    let t7 = tail_value(s, 7);
    assert(n / 0x100 == t1 && n % 0x100 == s[0]);
    assert(t1 / 0x100 == t2 && t1 % 0x100 == s[1]);
    assert(t2 / 0x100 == t3 && t2 % 0x100 == s[2]);
    assert(t3 / 0x100 == t4 && t3 % 0x100 == s[3]);
    assert(t4 / 0x100 == t5 && t4 % 0x100 == s[4]);
    assert(t5 / 0x100 == t6 && t5 % 0x100 == s[5]);
    assert(t6 / 0x100 == t7 && t6 % 0x100 == s[6]);
    assert(t7 == s[7]);
    assert(spec_u64_to_le(n) =~= s);
}

/// Reads the little-endian `u64` that stands at `at` in `bytes`.
pub fn u64_from_le(bytes: &[u8], at: usize) -> (v: u64)
    requires
        at + 8 <= bytes@.len(),
    ensures
        v == spec_u64_from_le(bytes@.subrange(at as int, at + 8)),
{
    let b0: u64 = bytes[at] as u64;
    let b1: u64 = bytes[at + 1] as u64;
    let b2: u64 = bytes[at + 2] as u64;
    let b3: u64 = bytes[at + 3] as u64;
    let b4: u64 = bytes[at + 4] as u64;
    let b5: u64 = bytes[at + 5] as u64;
    let b6: u64 = bytes[at + 6] as u64;
    let b7: u64 = bytes[at + 7] as u64;
    b0 + b1 * 0x100 + b2 * 0x1_0000 + b3 * 0x100_0000 + b4 * 0x1_0000_0000 + b5 * 0x100_0000_0000
        + b6 * 0x1_0000_0000_0000 + b7 * 0x100_0000_0000_0000
}

/// Spells `v` as eight bytes, least significant byte first.
pub fn u64_to_le(v: u64) -> (bytes: [u8; 8])
    ensures
        bytes@ == spec_u64_to_le(v),
{
    let v1: u64 = v / 0x100;
    let v2: u64 = v1 / 0x100;
    let v3: u64 = v2 / 0x100;
    let v4: u64 = v3 / 0x100;
    let v5: u64 = v4 / 0x100;
    let v6: u64 = v5 / 0x100;
    let v7: u64 = v6 / 0x100;
    let bytes: [u8; 8] = [
        (v % 0x100) as u8,
        (v1 % 0x100) as u8,
        (v2 % 0x100) as u8,
        (v3 % 0x100) as u8,
        (v4 % 0x100) as u8,
        (v5 % 0x100) as u8,
        (v6 % 0x100) as u8,
        (v7 % 0x100) as u8,
    ];
    assert(bytes@ =~= spec_u64_to_le(v));
    bytes
}

} // verus!
