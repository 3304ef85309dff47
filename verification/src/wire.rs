//! Little-endian integer encoding, as the HID reports lay integers out.
use vstd::prelude::*;

verus! {

/// The little-endian 16-bit value at `off`.
pub open spec fn le16_at(b: Seq<u8>, off: int) -> int {
    b[off] + 256 * b[off + 1]
}

/// The little-endian 32-bit value at `off`.
pub open spec fn le32_at(b: Seq<u8>, off: int) -> int {
    le16_at(b, off) + 65536 * le16_at(b, off + 2)
}

/// The two little-endian bytes of `v`.
pub open spec fn spec_le16_bytes(v: u16) -> Seq<u8> {
    seq![(v % 256) as u8, (v / 256) as u8]
}

/// The four little-endian bytes of `v`.
pub open spec fn spec_le32_bytes(v: u32) -> Seq<u8> {
    seq![(v % 256) as u8, ((v / 256) % 256) as u8, ((v / 65536) % 256) as u8, (v / 16777216) as u8]
}

/// The little-endian bytes of a u16.
pub fn le16_bytes(v: u16) -> (r: [u8; 2])
    ensures
        r@ == spec_le16_bytes(v),
        le16_at(r@, 0) == v,
{
    let lo: u8 = (v & 0xff) as u8;
    let hi: u8 = (v >> 8u16) as u8;
    assert(lo == v % 256 && hi == v / 256) by (bit_vector)
        requires lo == (v & 0xff) as u8, hi == (v >> 8u16) as u8;
    let r = [lo, hi];
    assert(r@ =~= spec_le16_bytes(v));
    r
}

/// The little-endian bytes of a u32.
pub fn le32_bytes(v: u32) -> (r: [u8; 4])
    ensures
        r@ == spec_le32_bytes(v),
        le32_at(r@, 0) == v,
{
    let b0: u8 = (v & 0xff) as u8;
    let b1: u8 = ((v >> 8u32) & 0xff) as u8;
    let b2: u8 = ((v >> 16u32) & 0xff) as u8;
    let b3: u8 = (v >> 24u32) as u8;
    assert(b0 == v % 256 && b1 == (v / 256) % 256 && b2 == (v / 65536) % 256 && b3 == v / 16777216
        && v == b0 + 256 * b1 + 65536 * b2 + 16777216 * b3) by (bit_vector)
        requires
            b0 == (v & 0xff) as u8,
            b1 == ((v >> 8u32) & 0xff) as u8,
            b2 == ((v >> 16u32) & 0xff) as u8,
            b3 == (v >> 24u32) as u8;
    let r = [b0, b1, b2, b3];
    assert(r@ =~= spec_le32_bytes(v));
    r
}

/// The u16 whose little-endian bytes are `lo`, `hi`.
pub fn le16_value(lo: u8, hi: u8) -> (r: u16)
    ensures
        r == lo + 256 * hi,
{
    let r: u16 = (lo as u16) | ((hi as u16) << 8u16);
    assert(r == lo + 256 * hi) by (bit_vector)
        requires r == (lo as u16) | ((hi as u16) << 8u16);
    r
}

} // verus!
