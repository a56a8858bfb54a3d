//! Little-endian readers for fixed-width fields of an account byte buffer.

use vstd::prelude::*;

verus! {

/// Value of two little-endian bytes.
pub open spec fn le_u16(s: Seq<u8>) -> int
    recommends
        s.len() == 2,
{
    s[0] + s[1] * 0x100
}

/// Value of eight little-endian bytes.
pub open spec fn le_u64(s: Seq<u8>) -> int
    recommends
        s.len() == 8,
{
    s[0] + s[1] * 0x100 + s[2] * 0x1_0000 + s[3] * 0x100_0000 + s[4] * 0x1_0000_0000 + s[5]
        * 0x100_0000_0000 + s[6] * 0x1_0000_0000_0000 + s[7] * 0x100_0000_0000_0000
}

/// Value of sixteen little-endian bytes.
pub open spec fn le_u128(s: Seq<u8>) -> int
    recommends
        s.len() == 16,
{
    le_u64(s.subrange(0, 8)) + le_u64(s.subrange(8, 16)) * 0x1_0000_0000_0000_0000
}

/// Reads the little-endian `u16` stored at `off`.
pub fn read_u16_le(b: &Vec<u8>, off: usize) -> (r: u16)
    requires
        off + 2 <= b@.len(),
    ensures
        r == le_u16(b@.subrange(off as int, off as int + 2)),
{
    let blen: usize = b.len();
    assert(off + 2 <= blen);
    let r: u16 = (b[off] as u16) + (b[off + 1] as u16) * 0x100;
    proof {
        let s = b@.subrange(off as int, off as int + 2);
        assert(s[0] == b@[off as int]);
        assert(s[1] == b@[off as int + 1]);
    }
    r
}

/// Reads the little-endian `u64` stored at `off`.
pub fn read_u64_le(b: &Vec<u8>, off: usize) -> (r: u64)
    requires
        off + 8 <= b@.len(),
    ensures
        r == le_u64(b@.subrange(off as int, off as int + 8)),
{
    let blen: usize = b.len();
    assert(off + 8 <= blen);
    let r: u64 = (b[off] as u64) + (b[off + 1] as u64) * 0x100 + (b[off + 2] as u64) * 0x1_0000 + (
    b[off + 3] as u64) * 0x100_0000 + (b[off + 4] as u64) * 0x1_0000_0000 + (b[off + 5] as u64)
        * 0x100_0000_0000 + (b[off + 6] as u64) * 0x1_0000_0000_0000 + (b[off + 7] as u64)
        * 0x100_0000_0000_0000;
    proof {
        let s = b@.subrange(off as int, off as int + 8);
        assert(s[0] == b@[off as int]);
        assert(s[1] == b@[off as int + 1]);
        assert(s[2] == b@[off as int + 2]);
        assert(s[3] == b@[off as int + 3]);
        assert(s[4] == b@[off as int + 4]);
        assert(s[5] == b@[off as int + 5]);
        assert(s[6] == b@[off as int + 6]);
        assert(s[7] == b@[off as int + 7]);
    }
    r
}

/// Reads the little-endian `u128` stored at `off`.
pub fn read_u128_le(b: &Vec<u8>, off: usize) -> (r: u128)
    requires
        off + 16 <= b@.len(),
    ensures
        r == le_u128(b@.subrange(off as int, off as int + 16)),
{
    let blen: usize = b.len();
    assert(off + 16 <= blen);
    let lo = read_u64_le(b, off);
    let hi = read_u64_le(b, off + 8);
    let r: u128 = (lo as u128) + (hi as u128) * 0x1_0000_0000_0000_0000;
    proof {
        let s = b@.subrange(off as int, off as int + 16);
        assert(s.subrange(0, 8) =~= b@.subrange(off as int, off as int + 8));
        assert(s.subrange(8, 16) =~= b@.subrange(off as int + 8, off as int + 16));
    }
    r
}

/// Copies the bytes `off .. off + len` out of `b`.
pub fn read_bytes(b: &Vec<u8>, off: usize, len: usize) -> (r: Vec<u8>)
    requires
        off + len <= b@.len(),
    ensures
        r@ == b@.subrange(off as int, off as int + len as int),
{
    let blen: usize = b.len();
    assert(off + len <= blen);
    let mut r: Vec<u8> = Vec::new();
    let mut i: usize = 0;
    while i < len
        invariant
            off + len <= b@.len() && b@.len() <= usize::MAX,
            i <= len,
            r@ == b@.subrange(off as int, off as int + i as int),
        decreases len - i,
    {
        r.push(b[off + i]);
        i = i + 1;
        proof {
            assert(r@ =~= b@.subrange(off as int, off as int + i as int));
        }
    }
    r
}

/// Copies a whole byte buffer.
pub fn copy_bytes(b: &Vec<u8>) -> (r: Vec<u8>)
    ensures
        r@ == b@,
{
    let r = read_bytes(b, 0, b.len());
    proof {
        assert(b@.subrange(0, b@.len() as int) =~= b@);
    }
    r
}

} // verus!
