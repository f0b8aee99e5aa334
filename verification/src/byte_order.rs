//! Little-endian fields of the disk protocol's byte layouts.
use vstd::prelude::*;

verus! {

/// The low byte of a 16-bit number.
pub open spec fn lo(x: u16) -> u8 {
    (x % 256) as u8
}

/// The high byte of a 16-bit number.
pub open spec fn hi(x: u16) -> u8 {
    (x / 256) as u8
}

/// The two bytes of `x`, least significant first.
pub open spec fn le_u16(x: u16) -> Seq<u8> {
    seq![lo(x), hi(x)]
}

/// The four bytes of `x`, least significant first.
pub open spec fn le_u32(x: u32) -> Seq<u8> {
    seq![
        (x % 256) as u8,
        ((x / 256) % 256) as u8,
        ((x / 65536) % 256) as u8,
        (x / 16777216) as u8,
    ]
}

/// The 16-bit number stored least significant byte first at `s[i]`, `s[i + 1]`.
pub open spec fn u16_at(s: Seq<u8>, i: int) -> u16 {
    (s[i] + 256 * s[i + 1]) as u16
}

/// The 32-bit number stored least significant byte first at `s[i] .. s[i + 4]`.
pub open spec fn u32_at(s: Seq<u8>, i: int) -> u32 {
    (s[i] + 256 * s[i + 1] + 65536 * s[i + 2] + 16777216 * s[i + 3]) as u32
}

pub fn u16_from_le(lo: u8, hi: u8) -> (x: u16)
    ensures
        x == lo + 256 * hi,
{
    lo as u16 + 256 * (hi as u16)
}

pub fn u32_from_le(b0: u8, b1: u8, b2: u8, b3: u8) -> (x: u32)
    ensures
        x == b0 + 256 * b1 + 65536 * b2 + 16777216 * b3,
{
    b0 as u32 + 256 * (b1 as u32) + 65536 * (b2 as u32) + 16777216 * (b3 as u32)
}

pub fn u16_to_le(x: u16) -> (bytes: [u8; 2])
    ensures
        bytes@ == le_u16(x),
{
    let bytes = [(x % 256) as u8, (x / 256) as u8];
    assert(bytes@ =~= le_u16(x));
    bytes
}

pub fn u32_to_le(x: u32) -> (bytes: [u8; 4])
    ensures
        bytes@ == le_u32(x),
{
    let bytes = [(x % 256) as u8, ((x / 256) % 256) as u8, ((x / 65536) % 256) as u8, (x / 16777216) as u8];
    assert(bytes@ =~= le_u32(x));
    bytes
}

/// Reading back the bytes of a 16-bit number gives the number.
pub proof fn lemma_u16_round_trip(x: u16)
    ensures
        u16_at(le_u16(x), 0) == x,
{
}

/// Reading back the bytes of a 32-bit number gives the number.
pub proof fn lemma_u32_round_trip(x: u32)
    ensures
        u32_at(le_u32(x), 0) == x,
{
    assert(x == x % 256 + 256 * ((x / 256) % 256) + 65536 * ((x / 65536) % 256) + 16777216 * (x
        / 16777216)) by (bit_vector);
}

/// Writing back a 16-bit number read from two bytes gives the bytes.
pub proof fn lemma_u16_bytes_round_trip(s: Seq<u8>, i: int)
    requires
        0 <= i,
        i + 2 <= s.len(),
    ensures
        le_u16(u16_at(s, i)) == s.subrange(i, i + 2),
{
    assert(le_u16(u16_at(s, i)) =~= s.subrange(i, i + 2));
}

/// Writing back a 32-bit number read from four bytes gives the bytes.
pub proof fn lemma_u32_bytes_round_trip(s: Seq<u8>, i: int)
    requires
        0 <= i,
        i + 4 <= s.len(),
    ensures
        le_u32(u32_at(s, i)) == s.subrange(i, i + 4),
{
    let (b0, b1, b2, b3) = (s[i], s[i + 1], s[i + 2], s[i + 3]);
    let x: u32 = (b0 + 256 * b1 + 65536 * b2 + 16777216 * b3) as u32;
    assert(b0 + 256 * b1 + 65536 * b2 + 16777216 * b3 < 0x1_0000_0000) by (bit_vector);
    assert(((b0 + 256 * b1 + 65536 * b2 + 16777216 * b3) as u32) % 256 == b0
        && (((b0 + 256 * b1 + 65536 * b2 + 16777216 * b3) as u32) / 256) % 256 == b1
        && (((b0 + 256 * b1 + 65536 * b2 + 16777216 * b3) as u32) / 65536) % 256 == b2
        && ((b0 + 256 * b1 + 65536 * b2 + 16777216 * b3) as u32) / 16777216 == b3) by (bit_vector);
    assert(le_u32(u32_at(s, i)) =~= s.subrange(i, i + 4));
}

} // verus!
