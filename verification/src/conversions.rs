//! Byte-order primitives: fixed-size byte spans read as integers in a given
//! endianness. These are the leaves that every other component builds on.

use vstd::prelude::*;

verus! {

/// The value of two bytes, first byte most significant.
pub open spec fn spec_u16_be(b0: u8, b1: u8) -> u16 {
    (b0 * 0x100 + b1) as u16
}

/// The value of two bytes, first byte least significant.
pub open spec fn spec_u16_le(b0: u8, b1: u8) -> u16 {
    (b1 * 0x100 + b0) as u16
}

/// The value of four bytes, first byte most significant.
pub open spec fn spec_u32_be(b0: u8, b1: u8, b2: u8, b3: u8) -> u32 {
    (b0 * 0x100_0000 + b1 * 0x1_0000 + b2 * 0x100 + b3) as u32
}

/// The value of four bytes, first byte least significant.
pub open spec fn spec_u32_le(b0: u8, b1: u8, b2: u8, b3: u8) -> u32 {
    (b3 * 0x100_0000 + b2 * 0x1_0000 + b1 * 0x100 + b0) as u32
}

/// The signed value whose 32-bit two's-complement representation is `u`.
pub open spec fn spec_i32_of_u32(u: u32) -> i32 {
    if u < 0x8000_0000 {
        u as i32
    } else {
        (u - 0x1_0000_0000) as i32
    }
}

pub fn u8_2_to_u16_be(u: (u8, u8)) -> (r: u16)
    ensures
        r == spec_u16_be(u.0, u.1),
{
    (u.0 as u16) * 0x100 + (u.1 as u16)
}

pub fn u8_2_to_u16_le(u: (u8, u8)) -> (r: u16)
    ensures
        r == spec_u16_le(u.0, u.1),
{
    (u.1 as u16) * 0x100 + (u.0 as u16)
}

pub fn u8_4_to_u32_be(u: (u8, u8, u8, u8)) -> (r: u32)
    ensures
        r == spec_u32_be(u.0, u.1, u.2, u.3),
{
    (u.0 as u32) * 0x100_0000 + (u.1 as u32) * 0x1_0000 + (u.2 as u32) * 0x100 + (u.3 as u32)
}

pub fn u8_4_to_u32_le(u: (u8, u8, u8, u8)) -> (r: u32)
    ensures
        r == spec_u32_le(u.0, u.1, u.2, u.3),
{
    (u.3 as u32) * 0x100_0000 + (u.2 as u32) * 0x1_0000 + (u.1 as u32) * 0x100 + (u.0 as u32)
}

pub fn u8_4_to_i32_le(u: (u8, u8, u8, u8)) -> (r: i32)
    ensures
        r == spec_i32_of_u32(spec_u32_le(u.0, u.1, u.2, u.3)),
{
    let v = u8_4_to_u32_le(u);
    if v < 0x8000_0000 {
        v as i32
    } else {
        ((v as i64) - 0x1_0000_0000i64) as i32
    }
}

/// The 16-bit value stored at byte offset `off` of `b` in the given byte order.
pub open spec fn spec_u16_at(b: Seq<u8>, off: int, le: bool) -> u16
    recommends
        0 <= off,
        off + 2 <= b.len(),
{
    if le {
        spec_u16_le(b[off], b[off + 1])
    } else {
        spec_u16_be(b[off], b[off + 1])
    }
}

/// The 32-bit value stored at byte offset `off` of `b` in the given byte order.
pub open spec fn spec_u32_at(b: Seq<u8>, off: int, le: bool) -> u32
    recommends
        0 <= off,
        off + 4 <= b.len(),
{
    if le {
        spec_u32_le(b[off], b[off + 1], b[off + 2], b[off + 3])
    } else {
        spec_u32_be(b[off], b[off + 1], b[off + 2], b[off + 3])
    }
}

/// The 32-bit signed value stored at byte offset `off` of `b`.
pub open spec fn spec_i32_at(b: Seq<u8>, off: int, le: bool) -> i32 {
    spec_i32_of_u32(spec_u32_at(b, off, le))
}

pub fn read_u16_at(slice: &[u8], off: usize, le: bool) -> (r: u16)
    requires
        off + 2 <= slice@.len(),
    ensures
        r == spec_u16_at(slice@, off as int, le),
{
    let b0 = slice[off];
    let b1 = slice[off + 1];
    if le {
        u8_2_to_u16_le((b0, b1))
    } else {
        u8_2_to_u16_be((b0, b1))
    }
}

pub fn read_u32_at(slice: &[u8], off: usize, le: bool) -> (r: u32)
    requires
        off + 4 <= slice@.len(),
    ensures
        r == spec_u32_at(slice@, off as int, le),
{
    let b0 = slice[off];
    let b1 = slice[off + 1];
    let b2 = slice[off + 2];
    let b3 = slice[off + 3];
    if le {
        u8_4_to_u32_le((b0, b1, b2, b3))
    } else {
        u8_4_to_u32_be((b0, b1, b2, b3))
    }
}

/// Each element widened to `i64`, in order.
pub open spec fn spec_widen_u8s(s: Seq<u8>) -> Seq<i64> {
    s.map_values(|x: u8| x as i64)
}

/// Each element widened to `i64`, in order.
pub open spec fn spec_widen_u16s(s: Seq<u16>) -> Seq<i64> {
    s.map_values(|x: u16| x as i64)
}

/// Each element widened to `i64`, in order.
pub open spec fn spec_widen_u32s(s: Seq<u32>) -> Seq<i64> {
    s.map_values(|x: u32| x as i64)
}

/// Each element widened to `i64`, in order.
pub open spec fn spec_widen_i32s(s: Seq<i32>) -> Seq<i64> {
    s.map_values(|x: i32| x as i64)
}

/// Both halves of each pair widened to `i64`, in order.
pub open spec fn spec_widen_u32_pairs(s: Seq<(u32, u32)>) -> Seq<(i64, i64)> {
    s.map_values(|p: (u32, u32)| (p.0 as i64, p.1 as i64))
}

/// Both halves of each pair widened to `i64`, in order.
pub open spec fn spec_widen_i32_pairs(s: Seq<(i32, i32)>) -> Seq<(i64, i64)> {
    s.map_values(|p: (i32, i32)| (p.0 as i64, p.1 as i64))
}

/// Widens each element to `i64`, keeping the order.
pub fn u16s_to_i64s(v: &Vec<u16>) -> (r: Vec<i64>)
    ensures
        r@ == spec_widen_u16s(v@),
{
    let mut r: Vec<i64> = Vec::new();
    let mut i: usize = 0;
    while i < v.len()
        invariant
            0 <= i <= v@.len(),
            r@.len() == i,
            forall|k: int| 0 <= k < i ==> r@[k] == v@[k] as i64,
        decreases v@.len() - i,
    {
        r.push(v[i] as i64);
        i = i + 1;
    }
    proof {
        assert(r@ =~= spec_widen_u16s(v@));
    }
    r
}

/// Widens each element to `i64`, keeping the order.
pub fn u32s_to_i64s(v: &Vec<u32>) -> (r: Vec<i64>)
    ensures
        r@ == spec_widen_u32s(v@),
{
    let mut r: Vec<i64> = Vec::new();
    let mut i: usize = 0;
    while i < v.len()
        invariant
            0 <= i <= v@.len(),
            r@.len() == i,
            forall|k: int| 0 <= k < i ==> r@[k] == v@[k] as i64,
        decreases v@.len() - i,
    {
        r.push(v[i] as i64);
        i = i + 1;
    }
    proof {
        assert(r@ =~= spec_widen_u32s(v@));
    }
    r
}

/// Widens each element to `i64`, keeping the order.
pub fn u8s_to_i64s(v: &Vec<u8>) -> (r: Vec<i64>)
    ensures
        r@ == spec_widen_u8s(v@),
{
    let mut r: Vec<i64> = Vec::new();
    let mut i: usize = 0;
    while i < v.len()
        invariant
            0 <= i <= v@.len(),
            r@.len() == i,
            forall|k: int| 0 <= k < i ==> r@[k] == v@[k] as i64,
        decreases v@.len() - i,
    {
        r.push(v[i] as i64);
        i = i + 1;
    }
    proof {
        assert(r@ =~= spec_widen_u8s(v@));
    }
    r
}

/// Widens each element to `i64`, keeping the order.
pub fn i32s_to_i64s(v: &Vec<i32>) -> (r: Vec<i64>)
    ensures
        r@ == spec_widen_i32s(v@),
{
    let mut r: Vec<i64> = Vec::new();
    let mut i: usize = 0;
    while i < v.len()
        invariant
            0 <= i <= v@.len(),
            r@.len() == i,
            forall|k: int| 0 <= k < i ==> r@[k] == v@[k] as i64,
        decreases v@.len() - i,
    {
        r.push(v[i] as i64);
        i = i + 1;
    }
    proof {
        assert(r@ =~= spec_widen_i32s(v@));
    }
    r
}

/// Widens the halves of each pair to `i64`, keeping the order.
pub fn u32_pairs_to_i64s(v: &Vec<(u32, u32)>) -> (r: Vec<(i64, i64)>)
    ensures
        r@ == spec_widen_u32_pairs(v@),
{
    let mut r: Vec<(i64, i64)> = Vec::new();
    let mut i: usize = 0;
    while i < v.len()
        invariant
            0 <= i <= v@.len(),
            r@.len() == i,
            forall|k: int| 0 <= k < i ==> r@[k] == (v@[k].0 as i64, v@[k].1 as i64),
        decreases v@.len() - i,
    {
        let p = v[i];
        r.push((p.0 as i64, p.1 as i64));
        i = i + 1;
    }
    proof {
        assert(r@ =~= spec_widen_u32_pairs(v@));
    }
    r
}

/// Widens the halves of each pair to `i64`, keeping the order.
pub fn i32_pairs_to_i64s(v: &Vec<(i32, i32)>) -> (r: Vec<(i64, i64)>)
    ensures
        r@ == spec_widen_i32_pairs(v@),
{
    let mut r: Vec<(i64, i64)> = Vec::new();
    let mut i: usize = 0;
    while i < v.len()
        invariant
            0 <= i <= v@.len(),
            r@.len() == i,
            forall|k: int| 0 <= k < i ==> r@[k] == (v@[k].0 as i64, v@[k].1 as i64),
        decreases v@.len() - i,
    {
        let p = v[i];
        r.push((p.0 as i64, p.1 as i64));
        i = i + 1;
    }
    proof {
        assert(r@ =~= spec_widen_i32_pairs(v@));
    }
    r
}

pub fn read_i32_at(slice: &[u8], off: usize, le: bool) -> (r: i32)
    requires
        off + 4 <= slice@.len(),
    ensures
        r == spec_i32_at(slice@, off as int, le),
{
    let v = read_u32_at(slice, off, le);
    if v < 0x8000_0000 {
        v as i32
    } else {
        ((v as i64) - 0x1_0000_0000i64) as i32
    }
}

} // verus!
