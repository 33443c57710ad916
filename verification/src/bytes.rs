//! Little-endian byte images of fixed-width integers, and the way back.

use vstd::prelude::*;

verus! {

/// The two bytes of a 16-bit value, low byte first.
pub open spec fn bytes16(x: u16) -> Seq<u8> {
    seq![(x % 256) as u8, (x / 256) as u8]
}

/// The four bytes of a 32-bit value, low byte first.
pub open spec fn bytes32(x: u32) -> Seq<u8> {
    seq![
        (x % 256) as u8,
        (x / 0x100 % 256) as u8,
        (x / 0x1_0000 % 256) as u8,
        (x / 0x100_0000) as u8,
    ]
}

/// The eight bytes of a 64-bit value, low byte first.
pub open spec fn bytes64(x: u64) -> Seq<u8> {
    seq![
        (x % 256) as u8,
        (x / 0x100 % 256) as u8,
        (x / 0x1_0000 % 256) as u8,
        (x / 0x100_0000 % 256) as u8,
        (x / 0x1_0000_0000 % 256) as u8,
        (x / 0x100_0000_0000 % 256) as u8,
        (x / 0x1_0000_0000_0000 % 256) as u8,
        (x / 0x100_0000_0000_0000) as u8,
    ]
}

/// The 32-bit value whose little-endian image is the first four bytes of `s`.
pub open spec fn value32(s: Seq<u8>) -> u32
    recommends
        s.len() >= 4,
{
    (s[0] + s[1] * 0x100 + s[2] * 0x1_0000 + s[3] * 0x100_0000) as u32
}

/// The 64-bit value whose little-endian image is the first eight bytes of `s`.
pub open spec fn value64(s: Seq<u8>) -> u64
    recommends
        s.len() >= 8,
{
    (s[0] + s[1] * 0x100 + s[2] * 0x1_0000 + s[3] * 0x100_0000 + s[4] * 0x1_0000_0000 + s[5]
        * 0x100_0000_0000 + s[6] * 0x1_0000_0000_0000 + s[7] * 0x100_0000_0000_0000) as u64
}

/// Reading back the image of a 32-bit value gives the value, whatever follows
/// the image.
pub proof fn lemma_value32_of_bytes32(x: u32, rest: Seq<u8>)
    ensures
        value32(bytes32(x) + rest) == x,
        (bytes32(x) + rest).len() == 4 + rest.len(),
{
    let s = bytes32(x) + rest;
    assert(s[0] == bytes32(x)[0] && s[1] == bytes32(x)[1] && s[2] == bytes32(x)[2] && s[3]
        == bytes32(x)[3]);
    assert(x == (x % 256) + (x / 0x100 % 256) * 0x100 + (x / 0x1_0000 % 256) * 0x1_0000 + (x
        / 0x100_0000) * 0x100_0000) by (bit_vector);
}

/// Reading back the image of a 64-bit value gives the value, whatever follows
/// the image.
pub proof fn lemma_value64_of_bytes64(x: u64, rest: Seq<u8>)
    ensures
        value64(bytes64(x) + rest) == x,
        (bytes64(x) + rest).len() == 8 + rest.len(),
{
    let s = bytes64(x) + rest;
    let b = bytes64(x);
    assert(s[0] == b[0] && s[1] == b[1] && s[2] == b[2] && s[3] == b[3] && s[4] == b[4] && s[5]
        == b[5] && s[6] == b[6] && s[7] == b[7]);
    assert(x == (x % 256) + (x / 0x100 % 256) * 0x100 + (x / 0x1_0000 % 256) * 0x1_0000 + (x
        / 0x100_0000 % 256) * 0x100_0000 + (x / 0x1_0000_0000 % 256) * 0x1_0000_0000 + (x
        / 0x100_0000_0000 % 256) * 0x100_0000_0000 + (x / 0x1_0000_0000_0000 % 256)
        * 0x1_0000_0000_0000 + (x / 0x100_0000_0000_0000) * 0x100_0000_0000_0000)
        by (bit_vector);
}

/// Appends the two bytes of `x`, low byte first.
pub fn push16(out: &mut Vec<u8>, x: u16)
    ensures
        final(out)@ == old(out)@ + bytes16(x),
{
    out.push((x % 256) as u8);
    out.push((x / 256) as u8);
    assert(out@ =~= old(out)@ + bytes16(x));
}

/// Appends the four bytes of `x`, low byte first.
pub fn push32(out: &mut Vec<u8>, x: u32)
    ensures
        final(out)@ == old(out)@ + bytes32(x),
{
    out.push((x % 256) as u8);
    out.push((x / 0x100 % 256) as u8);
    out.push((x / 0x1_0000 % 256) as u8);
    out.push((x / 0x100_0000) as u8);
    assert(out@ =~= old(out)@ + bytes32(x));
}

/// Appends the eight bytes of `x`, low byte first.
pub fn push64(out: &mut Vec<u8>, x: u64)
    ensures
        final(out)@ == old(out)@ + bytes64(x),
{
    out.push((x % 256) as u8);
    out.push((x / 0x100 % 256) as u8);
    out.push((x / 0x1_0000 % 256) as u8);
    out.push((x / 0x100_0000 % 256) as u8);
    out.push((x / 0x1_0000_0000 % 256) as u8);
    out.push((x / 0x100_0000_0000 % 256) as u8);
    out.push((x / 0x1_0000_0000_0000 % 256) as u8);
    out.push((x / 0x100_0000_0000_0000) as u8);
    assert(out@ =~= old(out)@ + bytes64(x));
}

/// Reads the 32-bit value stored at `at`.
pub fn read32(buf: &[u8], at: usize) -> (x: u32)
    requires
        at + 4 <= buf@.len(),
    ensures
        x == value32(buf@.skip(at as int)),
{
    buf[at] as u32 + buf[at + 1] as u32 * 0x100 + buf[at + 2] as u32 * 0x1_0000 + buf[at
        + 3] as u32 * 0x100_0000
}

/// Reads the 64-bit value stored at `at`.
pub fn read64(buf: &[u8], at: usize) -> (x: u64)
    requires
        at + 8 <= buf@.len(),
    ensures
        x == value64(buf@.skip(at as int)),
{
    buf[at] as u64 + buf[at + 1] as u64 * 0x100 + buf[at + 2] as u64 * 0x1_0000 + buf[at
        + 3] as u64 * 0x100_0000 + buf[at + 4] as u64 * 0x1_0000_0000 + buf[at + 5] as u64
        * 0x100_0000_0000 + buf[at + 6] as u64 * 0x1_0000_0000_0000 + buf[at + 7] as u64
        * 0x100_0000_0000_0000
}

} // verus!
