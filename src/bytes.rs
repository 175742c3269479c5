use vstd::arithmetic::div_mod::lemma_fundamental_div_mod_converse;
use vstd::prelude::*;

verus! {

/// The unsigned value of `s` read as a little-endian number: `s[0]` is the
/// least significant byte.
pub open spec fn le_value(s: Seq<u8>) -> nat
    decreases s.len(),
{
    if s.len() == 0 {
        0
    } else {
        s[0] as nat + 256 * le_value(s.drop_first())
    }
}

/// The `n` little-endian bytes of `v` (its low `8 * n` bits).
pub open spec fn le_bytes(v: nat, n: nat) -> Seq<u8>
    decreases n,
{
    if n == 0 {
        Seq::empty()
    } else {
        seq![(v % 256) as u8] + le_bytes(v / 256, (n - 1) as nat)
    }
}

/// `256` raised to `n`.
pub open spec fn byte_range(n: nat) -> nat
    decreases n,
{
    if n == 0 {
        1
    } else {
        256 * byte_range((n - 1) as nat)
    }
}

/// Encoding the value of a byte sequence gives the sequence back.
pub proof fn lemma_le_bytes_of_value(s: Seq<u8>)
    ensures
        le_bytes(le_value(s), s.len()) == s,
    decreases s.len(),
{
    if s.len() > 0 {
        let rest = s.drop_first();
        lemma_le_bytes_of_value(rest);
        let v = le_value(s);
        lemma_fundamental_div_mod_converse(v as int, 256, le_value(rest) as int, s[0] as int);
        assert(le_bytes(v, s.len()) =~= s);
    }
}

/// Reading the `n` bytes of a value below `256^n` gives the value back.
pub proof fn lemma_le_value_of_bytes(v: nat, n: nat)
    requires
        v < byte_range(n),
    ensures
        le_bytes(v, n).len() == n,
        le_value(le_bytes(v, n)) == v,
    decreases n,
{
    if n > 0 {
        let q = v / 256;
        assert(q < byte_range((n - 1) as nat)) by {
            vstd::arithmetic::div_mod::lemma_fundamental_div_mod(v as int, 256);
        }
        lemma_le_value_of_bytes(q, (n - 1) as nat);
        let b = le_bytes(v, n);
        assert(b.drop_first() =~= le_bytes(q, (n - 1) as nat));
        vstd::arithmetic::div_mod::lemma_fundamental_div_mod(v as int, 256);
    }
}

/// The value of `n` bytes is below `256^n`.
pub proof fn lemma_value_below(s: Seq<u8>)
    ensures
        le_value(s) < byte_range(s.len()),
    decreases s.len(),
{
    if s.len() > 0 {
        lemma_value_below(s.drop_first());
        assert(byte_range(s.len()) == 256 * byte_range((s.len() - 1) as nat));
    }
}

proof fn lemma_le_value_8(s: Seq<u8>)
    requires
        s.len() == 8,
    ensures
        le_value(s) == s[0] + 0x100 * s[1] + 0x10000 * s[2] + 0x1000000 * s[3] + 0x100000000 * s[4]
            + 0x10000000000 * s[5] + 0x1000000000000 * s[6] + 0x100000000000000 * s[7],
{
    let s1 = s.drop_first();
    let s2 = s1.drop_first();
    let s3 = s2.drop_first();
    let s4 = s3.drop_first();
    let s5 = s4.drop_first();
    let s6 = s5.drop_first();
    let s7 = s6.drop_first();
    let s8 = s7.drop_first();
    assert(le_value(s8) == 0);
    assert(le_value(s7) == s[7] + 256 * le_value(s8));
    assert(le_value(s6) == s[6] + 256 * le_value(s7));
    assert(le_value(s5) == s[5] + 256 * le_value(s6));
    assert(le_value(s4) == s[4] + 256 * le_value(s5));
    assert(le_value(s3) == s[3] + 256 * le_value(s4));
    assert(le_value(s2) == s[2] + 256 * le_value(s3));
    assert(le_value(s1) == s[1] + 256 * le_value(s2));
}

proof fn lemma_le_value_4(s: Seq<u8>)
    requires
        s.len() == 4,
    ensures
        le_value(s) == s[0] + 0x100 * s[1] + 0x10000 * s[2] + 0x1000000 * s[3],
{
    let s1 = s.drop_first();
    let s2 = s1.drop_first();
    let s3 = s2.drop_first();
    let s4 = s3.drop_first();
    assert(le_value(s4) == 0);
    assert(le_value(s3) == s[3] + 256 * le_value(s4));
    assert(le_value(s2) == s[2] + 256 * le_value(s3));
    assert(le_value(s1) == s[1] + 256 * le_value(s2));
}

proof fn lemma_le_value_2(s: Seq<u8>)
    requires
        s.len() == 2,
    ensures
        le_value(s) == s[0] + 0x100 * s[1],
{
    let s1 = s.drop_first();
    let s2 = s1.drop_first();
    assert(le_value(s2) == 0);
    assert(le_value(s1) == s[1] + 256 * le_value(s2));
}

/// Reads the little-endian `u16` at `offset`.
pub fn read_u16(bytes: &[u8], offset: usize) -> (r: u16)
    requires
        offset + 2 <= bytes@.len(),
    ensures
        r as nat == le_value(bytes@.subrange(offset as int, offset + 2)),
{
    proof {
        lemma_le_value_2(bytes@.subrange(offset as int, offset + 2));
    }
    (bytes[offset] as u16) + (bytes[offset + 1] as u16) * 0x100
}

/// Reads the little-endian `u32` at `offset`.
pub fn read_u32(bytes: &[u8], offset: usize) -> (r: u32)
    requires
        offset + 4 <= bytes@.len(),
    ensures
        r as nat == le_value(bytes@.subrange(offset as int, offset + 4)),
{
    proof {
        lemma_le_value_4(bytes@.subrange(offset as int, offset + 4));
    }
    (bytes[offset] as u32) + (bytes[offset + 1] as u32) * 0x100 + (bytes[offset + 2] as u32)
        * 0x10000 + (bytes[offset + 3] as u32) * 0x1000000
}

/// Reads the little-endian `u64` at `offset`.
pub fn read_u64(bytes: &[u8], offset: usize) -> (r: u64)
    requires
        offset + 8 <= bytes@.len(),
    ensures
        r as nat == le_value(bytes@.subrange(offset as int, offset + 8)),
{
    proof {
        lemma_le_value_8(bytes@.subrange(offset as int, offset + 8));
    }
    (bytes[offset] as u64) + (bytes[offset + 1] as u64) * 0x100 + (bytes[offset + 2] as u64)
        * 0x10000 + (bytes[offset + 3] as u64) * 0x1000000 + (bytes[offset + 4] as u64)
        * 0x100000000 + (bytes[offset + 5] as u64) * 0x10000000000 + (bytes[offset + 6] as u64)
        * 0x1000000000000 + (bytes[offset + 7] as u64) * 0x100000000000000
}

} // verus!
