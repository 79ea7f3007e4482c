//! Little-endian encoding of the integers the save-state layout stores.

use vstd::prelude::*;

verus! {

/// The four bytes of `x`, least significant first.
pub open spec fn le32(x: u32) -> Seq<u8> {
    seq![
        (x % 0x100) as u8,
        (x / 0x100 % 0x100) as u8,
        (x / 0x1_0000 % 0x100) as u8,
        (x / 0x100_0000) as u8,
    ]
}

/// The integer whose little-endian bytes start at `at` in `bytes`.
pub open spec fn le32_at(bytes: Seq<u8>, at: int) -> int {
    bytes[at] + bytes[at + 1] * 0x100 + bytes[at + 2] * 0x1_0000 + bytes[at + 3] * 0x100_0000
}

/// The two bytes of `x`, least significant first.
pub open spec fn le16(x: u16) -> Seq<u8> {
    seq![(x % 0x100) as u8, (x / 0x100) as u8]
}

/// The integer whose little-endian bytes start at `at` in `bytes`.
pub open spec fn le16_at(bytes: Seq<u8>, at: int) -> int {
    bytes[at] + bytes[at + 1] * 0x100
}

/// Decoding undoes encoding, wherever the four bytes sit.
pub proof fn lemma_le32_round_trip(x: u32, before: Seq<u8>, after: Seq<u8>)
    ensures
        le32(x).len() == 4,
        le32_at(before + le32(x) + after, before.len() as int) == x,
{
    let all = before + le32(x) + after;
    let at = before.len() as int;
    assert(all[at] == le32(x)[0]);
    assert(all[at + 1] == le32(x)[1]);
    assert(all[at + 2] == le32(x)[2]);
    assert(all[at + 3] == le32(x)[3]);
}

/// Decoding undoes encoding, wherever the two bytes sit.
pub proof fn lemma_le16_round_trip(x: u16, before: Seq<u8>, after: Seq<u8>)
    ensures
        le16(x).len() == 2,
        le16_at(before + le16(x) + after, before.len() as int) == x,
{
    let all = before + le16(x) + after;
    let at = before.len() as int;
    assert(all[at] == le16(x)[0]);
    assert(all[at + 1] == le16(x)[1]);
}

/// Encodes `x` as four little-endian bytes.
pub fn u32_to_little_endian(x: u32) -> (bytes: [u8; 4])
    ensures
        bytes@ == le32(x),
{
    let bytes: [u8; 4] = [
        (x % 0x100) as u8,
        (x / 0x100 % 0x100) as u8,
        (x / 0x1_0000 % 0x100) as u8,
        (x / 0x100_0000) as u8,
    ];
    assert(bytes@ =~= le32(x));
    bytes
}

/// Decodes the four little-endian bytes at `at`.
pub fn u32_from_little_endian(bytes: &[u8], at: usize) -> (x: u32)
    requires
        at + 4 <= bytes@.len(),
    ensures
        x == le32_at(bytes@, at as int),
{
    (bytes[at] as u32) + (bytes[at + 1] as u32) * 0x100 + (bytes[at + 2] as u32) * 0x1_0000 + (bytes[at
        + 3] as u32) * 0x100_0000
}

/// Decodes the two little-endian bytes at `at`.
pub fn u16_from_little_endian(bytes: &[u8], at: usize) -> (x: u16)
    requires
        at + 2 <= bytes@.len(),
    ensures
        x == le16_at(bytes@, at as int),
{
    (bytes[at] as u16) + (bytes[at + 1] as u16) * 0x100
}

} // verus!
