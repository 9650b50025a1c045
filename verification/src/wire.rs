//! Big-endian integer fields of the wire format.
//!
//! Frame headers, length prefixes and timestamps are unsigned big-endian
//! integers. `be_value` is the mathematical value of a big-endian byte
//! sequence of any width; `be32` is the canonical 4-byte encoding of a
//! value below 2^32.

use vstd::prelude::*;

verus! {

/// Value of a byte sequence read as an unsigned big-endian integer.
pub open spec fn be_value(s: Seq<u8>) -> nat
    decreases s.len(),
{
    if s.len() == 0 {
        0
    } else {
        be_value(s.drop_last()) * 256 + (s.last() as nat)
    }
}

/// The 4-byte big-endian encoding of a value below 2^32.
pub open spec fn be32(n: nat) -> Seq<u8>
    recommends
        n < 0x1_0000_0000,
{
    seq![
        (n / 0x100_0000 % 0x100) as u8,
        (n / 0x1_0000 % 0x100) as u8,
        (n / 0x100 % 0x100) as u8,
        (n % 0x100) as u8,
    ]
}

pub proof fn lemma_be_value_4(s: Seq<u8>)
    requires
        s.len() == 4,
    ensures
        be_value(s) == (s[0] as nat) * 0x100_0000 + (s[1] as nat) * 0x1_0000 + (s[2] as nat)
            * 0x100 + (s[3] as nat),
{
    let s3 = s.drop_last();
    let s2 = s3.drop_last();
    let s1 = s2.drop_last();
    assert(be_value(s) == be_value(s3) * 256 + s[3]);
    assert(be_value(s3) == be_value(s2) * 256 + s[2]);
    assert(be_value(s2) == be_value(s1) * 256 + s[1]);
    assert(be_value(s1) == be_value(s1.drop_last()) * 256 + s[0]);
    assert(be_value(s1.drop_last()) == 0);
}

pub proof fn lemma_be_value_8(s: Seq<u8>)
    requires
        s.len() == 8,
    ensures
        be_value(s) == (s[0] as nat) * 0x100_0000_0000_0000 + (s[1] as nat) * 0x1_0000_0000_0000 + (
        s[2] as nat) * 0x100_0000_0000 + (s[3] as nat) * 0x1_0000_0000 + (s[4] as nat) * 0x100_0000
            + (s[5] as nat) * 0x1_0000 + (s[6] as nat) * 0x100 + (s[7] as nat),
{
    let s7 = s.drop_last();
    let s6 = s7.drop_last();
    let s5 = s6.drop_last();
    let s4 = s5.drop_last();
    assert(be_value(s) == be_value(s7) * 256 + s[7]);
    assert(be_value(s7) == be_value(s6) * 256 + s[6]);
    assert(be_value(s6) == be_value(s5) * 256 + s[5]);
    assert(be_value(s5) == be_value(s4) * 256 + s[4]);
    lemma_be_value_4(s4);
}

/// Read the 4-byte big-endian field starting at `off`.
pub fn read_be_u32(v: &Vec<u8>, off: usize) -> (x: u32)
    requires
        off + 4 <= v@.len(),
    ensures
        x as nat == be_value(v@.subrange(off as int, off as int + 4)),
{
    let _n: usize = v.len();
    let b0 = v[off] as u32;
    let b1 = v[off + 1] as u32;
    let b2 = v[off + 2] as u32;
    let b3 = v[off + 3] as u32;
    let x: u32 = b0 * 0x100_0000 + b1 * 0x1_0000 + b2 * 0x100 + b3;
    proof {
        lemma_be_value_4(v@.subrange(off as int, off as int + 4));
    }
    x
}

/// Read the 8-byte big-endian field starting at `off`.
pub fn read_be_u64(v: &Vec<u8>, off: usize) -> (x: u64)
    requires
        off + 8 <= v@.len(),
    ensures
        x as nat == be_value(v@.subrange(off as int, off as int + 8)),
{
    let _n: usize = v.len();
    let b0 = v[off] as u64;
    let b1 = v[off + 1] as u64;
    let b2 = v[off + 2] as u64;
    let b3 = v[off + 3] as u64;
    let b4 = v[off + 4] as u64;
    let b5 = v[off + 5] as u64;
    let b6 = v[off + 6] as u64;
    let b7 = v[off + 7] as u64;
    let x: u64 = b0 * 0x100_0000_0000_0000 + b1 * 0x1_0000_0000_0000 + b2 * 0x100_0000_0000 + b3
        * 0x1_0000_0000 + b4 * 0x100_0000 + b5 * 0x1_0000 + b6 * 0x100 + b7;
    proof {
        lemma_be_value_8(v@.subrange(off as int, off as int + 8));
    }
    x
}

/// The 4-byte big-endian encoding of `x`, as a vector.
pub fn u32_to_be(x: u32) -> (v: Vec<u8>)
    ensures
        v@ == be32(x as nat),
{
    let mut v: Vec<u8> = Vec::new();
    v.push((x / 0x100_0000 % 0x100) as u8);
    v.push((x / 0x1_0000 % 0x100) as u8);
    v.push((x / 0x100 % 0x100) as u8);
    v.push((x % 0x100) as u8);
    proof {
        assert(v@ =~= be32(x as nat));
    }
    v
}

/// Copy of the bytes of `v` from `from` (inclusive) to `to` (exclusive).
pub fn sub_vec(v: &Vec<u8>, from: usize, to: usize) -> (r: Vec<u8>)
    requires
        from <= to <= v@.len(),
    ensures
        r@ == v@.subrange(from as int, to as int),
{
    let mut r: Vec<u8> = Vec::new();
    let mut i: usize = from;
    while i < to
        invariant
            from <= i <= to <= v@.len(),
            r@ == v@.subrange(from as int, i as int),
        decreases to - i,
    {
        r.push(v[i]);
        proof {
            assert(r@ =~= v@.subrange(from as int, i as int + 1));
        }
        i = i + 1;
    }
    r
}

} // verus!
