//! Little-endian encodings used as address-derivation seeds.

use vstd::prelude::*;

verus! {

/// The four little-endian bytes of a 32-bit value.
pub open spec fn spec_u32_le(x: u32) -> Seq<u8> {
    seq![
        (x & 0xff) as u8,
        ((x >> 8) & 0xff) as u8,
        ((x >> 16) & 0xff) as u8,
        ((x >> 24) & 0xff) as u8,
    ]
}

/// The two little-endian bytes of a 16-bit value.
pub open spec fn spec_u16_le(x: u16) -> Seq<u8> {
    seq![(x & 0xff) as u8, ((x >> 8) & 0xff) as u8]
}

/// The single byte of an 8-bit value.
pub open spec fn spec_u8_le(x: u8) -> Seq<u8> {
    seq![x]
}

/// Encodes a 32-bit value as its four little-endian bytes.
pub fn u32_le_bytes(x: u32) -> (r: Vec<u8>)
    ensures
        r@ == spec_u32_le(x),
{
    let mut v: Vec<u8> = Vec::new();
    v.push((x & 0xff) as u8);
    v.push(((x >> 8) & 0xff) as u8);
    v.push(((x >> 16) & 0xff) as u8);
    v.push(((x >> 24) & 0xff) as u8);
    proof {
        assert(v@ =~= spec_u32_le(x));
    }
    v
}

/// Encodes a 16-bit value as its two little-endian bytes.
pub fn u16_le_bytes(x: u16) -> (r: Vec<u8>)
    ensures
        r@ == spec_u16_le(x),
{
    let mut v: Vec<u8> = Vec::new();
    v.push((x & 0xff) as u8);
    v.push(((x >> 8) & 0xff) as u8);
    proof {
        assert(v@ =~= spec_u16_le(x));
    }
    v
}

/// Encodes an 8-bit value as its single byte.
pub fn u8_le_bytes(x: u8) -> (r: Vec<u8>)
    ensures
        r@ == spec_u8_le(x),
{
    let mut v: Vec<u8> = Vec::new();
    v.push(x);
    proof {
        assert(v@ =~= spec_u8_le(x));
    }
    v
}

} // verus!
