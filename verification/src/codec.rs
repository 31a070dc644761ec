//! Fixed-offset little-endian layout of the unsigned 32-bit values that
//! both wire formats carry: the byte at offset `i` holds bits `8*i` up to
//! `8*i + 8` of the value.

use vstd::prelude::*;

verus! {

/// The unsigned 32-bit value stored little-endian in 4 bytes.
pub open spec fn spec_u32_from_le(s: Seq<u8>) -> u32
    recommends
        s.len() == 4,
{
    (s[0] as u32) | (s[1] as u32) << 8 | (s[2] as u32) << 16 | (s[3] as u32) << 24
}

/// The 4 little-endian bytes of an unsigned 32-bit value.
pub open spec fn spec_u32_to_le(v: u32) -> Seq<u8> {
    seq![(v & 0xff) as u8, ((v >> 8) & 0xff) as u8, ((v >> 16) & 0xff) as u8, ((v >> 24) & 0xff) as u8]
}

/// Reading back the 4 little-endian bytes of a value yields the value.
pub proof fn lemma_u32_le_round_trip(v: u32)
    ensures
        spec_u32_from_le(spec_u32_to_le(v)) == v,
{
    assert(((v & 0xff) as u8 as u32)
        | (((v >> 8) & 0xff) as u8 as u32) << 8
        | (((v >> 16) & 0xff) as u8 as u32) << 16
        | (((v >> 24) & 0xff) as u8 as u32) << 24
        == v) by (bit_vector);
}

/// Read an unsigned 32-bit value from 4 little-endian bytes.
pub fn u32_from_le(data: &[u8]) -> (r: u32)
    requires
        data@.len() == 4,
    ensures
        r == spec_u32_from_le(data@),
{
    let b0: u32 = data[0] as u32;
    let b1: u32 = data[1] as u32;
    let b2: u32 = data[2] as u32;
    let b3: u32 = data[3] as u32;
    b0 | b1 << 8 | b2 << 16 | b3 << 24
}

/// Write an unsigned 32-bit value as 4 little-endian bytes.
pub fn u32_to_le(v: u32) -> (r: Vec<u8>)
    ensures
        r@ == spec_u32_to_le(v),
        r@.len() == 4,
{
    proof {
        assert((v & 0xff) < 256 && ((v >> 8) & 0xff) < 256 && ((v >> 16) & 0xff) < 256 && ((v
            >> 24) & 0xff) < 256) by (bit_vector);
    }
    let b0: u8 = (v & 0xff) as u8;
    let b1: u8 = ((v >> 8) & 0xff) as u8;
    let b2: u8 = ((v >> 16) & 0xff) as u8;
    let b3: u8 = ((v >> 24) & 0xff) as u8;
    let r: Vec<u8> = vec![b0, b1, b2, b3];
    proof {
        assert(r@ =~= spec_u32_to_le(v));
    }
    r
}

} // verus!
