//! Big-endian integer fields of the FLV wire format, read from byte
//! sequences.

use vstd::prelude::*;

verus! {

/// The unsigned 16-bit big-endian integer held by a 2-byte sequence.
pub open spec fn be_u16(s: Seq<u8>) -> u32
    recommends
        s.len() == 2,
{
    (s[0] as int * 0x100 + s[1] as int) as u32
}

/// The unsigned 24-bit big-endian integer held by a 3-byte sequence.
pub open spec fn be_u24(s: Seq<u8>) -> u32
    recommends
        s.len() == 3,
{
    (s[0] as int * 0x10000 + s[1] as int * 0x100 + s[2] as int) as u32
}

/// The unsigned 32-bit big-endian integer held by a 4-byte sequence.
pub open spec fn be_u32(s: Seq<u8>) -> u32
    recommends
        s.len() == 4,
{
    (s[0] as int * 0x1000000 + s[1] as int * 0x10000 + s[2] as int * 0x100 + s[3] as int) as u32
}

/// The unsigned 64-bit big-endian integer held by an 8-byte sequence.
pub open spec fn be_u64(s: Seq<u8>) -> u64
    recommends
        s.len() == 8,
{
    (s[0] as int * 0x100000000000000 + s[1] as int * 0x1000000000000 + s[2] as int * 0x10000000000
        + s[3] as int * 0x100000000 + s[4] as int * 0x1000000 + s[5] as int * 0x10000 + s[6] as int
        * 0x100 + s[7] as int) as u64
}

/// The signed 24-bit (two's complement) big-endian integer held by a 3-byte
/// sequence.
pub open spec fn be_i24(s: Seq<u8>) -> i32
    recommends
        s.len() == 3,
{
    if s[0] >= 0x80 {
        (be_u24(s) as int - 0x1000000) as i32
    } else {
        be_u24(s) as i32
    }
}

/// Reads the 16-bit big-endian integer at `off`.
pub fn read_be_u16(v: &Vec<u8>, off: usize) -> (r: u32)
    requires
        off + 2 <= v.len(),
    ensures
        r == be_u16(v@.subrange(off as int, off as int + 2)),
{
    (v[off] as u32) * 0x100 + (v[off + 1] as u32)
}

/// Reads the 24-bit big-endian integer at `off`.
pub fn read_be_u24(v: &Vec<u8>, off: usize) -> (r: u32)
    requires
        off + 3 <= v.len(),
    ensures
        r == be_u24(v@.subrange(off as int, off as int + 3)),
{
    (v[off] as u32) * 0x10000 + (v[off + 1] as u32) * 0x100 + (v[off + 2] as u32)
}

/// Reads the 32-bit big-endian integer at `off`.
pub fn read_be_u32(v: &Vec<u8>, off: usize) -> (r: u32)
    requires
        off + 4 <= v.len(),
    ensures
        r == be_u32(v@.subrange(off as int, off as int + 4)),
{
    (v[off] as u32) * 0x1000000 + (v[off + 1] as u32) * 0x10000 + (v[off + 2] as u32) * 0x100 + (v[
        off + 3] as u32)
}

/// Reads the 64-bit big-endian integer at `off`.
pub fn read_be_u64(v: &Vec<u8>, off: usize) -> (r: u64)
    requires
        off + 8 <= v.len(),
    ensures
        r == be_u64(v@.subrange(off as int, off as int + 8)),
{
    (v[off] as u64) * 0x100000000000000 + (v[off + 1] as u64) * 0x1000000000000 + (v[off + 2]
        as u64) * 0x10000000000 + (v[off + 3] as u64) * 0x100000000 + (v[off + 4] as u64)
        * 0x1000000 + (v[off + 5] as u64) * 0x10000 + (v[off + 6] as u64) * 0x100 + (v[off + 7]
        as u64)
}

/// Copies `v[from..to]` into a fresh vector.
pub fn copy_range(v: &Vec<u8>, from: usize, to: usize) -> (out: Vec<u8>)
    requires
        from <= to <= v.len(),
    ensures
        out@ == v@.subrange(from as int, to as int),
{
    let mut out: Vec<u8> = Vec::new();
    let mut i: usize = from;
    while i < to
        invariant
            from <= i <= to <= v.len(),
            out@ == v@.subrange(from as int, i as int),
        decreases to - i,
    {
        let b = v[i];
        out.push(b);
        proof {
            assert(out@ =~= v@.subrange(from as int, i + 1 as int));
        }
        i += 1;
    }
    out
}

/// Reads the signed 24-bit big-endian integer at `off`.
pub fn read_be_i24(v: &Vec<u8>, off: usize) -> (r: i32)
    requires
        off + 3 <= v.len(),
    ensures
        r == be_i24(v@.subrange(off as int, off as int + 3)),
{
    let raw = read_be_u24(v, off);
    if v[off] >= 0x80 {
        (raw as i32) - 0x1000000
    } else {
        raw as i32
    }
}

} // verus!
