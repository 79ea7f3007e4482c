//! Power-of-two lengths and the address masks derived from them.

use vstd::prelude::*;
use vstd::arithmetic::div_mod::{lemma_mod_sub_multiples_vanish, lemma_small_mod};

verus! {

/// A length is a power of two when exactly one of its bits is set.
pub open spec fn is_power_of_two(n: usize) -> bool {
    n > 0 && n & ((n - 1) as usize) == 0
}

/// Masking with `len - 1` always lands inside a buffer of `len` bytes.
pub proof fn lemma_mask_bound(offset: usize, len: usize)
    requires
        len > 0,
    ensures
        offset & ((len - 1) as usize) < len,
{
    let m = (len - 1) as usize;
    assert(offset & m <= m) by (bit_vector);
}

/// Masking with `len - 1` leaves an offset below `len` as it is.
pub proof fn lemma_mask_identity(offset: usize, len: usize)
    requires
        is_power_of_two(len),
        offset < len,
    ensures
        offset & ((len - 1) as usize) == offset,
{
    let m = (len - 1) as usize;
    assert(len > 0 && m == (len - 1) as usize && len & m == 0 && offset < len ==> offset & m
        == offset) by (bit_vector);
}

/// Masking with `len - 1` is reduction modulo `len`.
pub proof fn lemma_mask_is_mod(offset: usize, len: usize)
    requires
        is_power_of_two(len),
    ensures
        offset & ((len - 1) as usize) == offset % len,
    decreases offset,
{
    if offset < len {
        lemma_mask_identity(offset, len);
        lemma_small_mod(offset as nat, len as nat);
    } else {
        let m = (len - 1) as usize;
        let rest = (offset - len) as usize;
        assert(len > 0 && m == (len - 1) as usize && len & m == 0 && offset >= len && rest == (offset
            - len) as usize ==> offset & m == rest & m) by (bit_vector);
        lemma_mask_is_mod(rest, len);
        lemma_mod_sub_multiples_vanish(offset as int, len as int);
    }
}

/// The largest power of two that fits every word size this crate is built
/// for.
pub const MAX_POWER_OF_TWO: usize = 0x8000_0000;

/// How far `floor` is short of `len`.
pub open spec fn shortfall(floor: nat, len: nat) -> nat {
    if floor < len {
        (len - floor) as nat
    } else {
        0
    }
}

/// `floor` doubled until it covers `len`: for a power of two `floor`, the
/// least power of two that is at least `floor` and at least `len`.
pub open spec fn doubled_to_cover(floor: nat, len: nat) -> nat
    decreases shortfall(floor, len),
{
    if floor == 0 || floor >= len {
        floor
    } else {
        doubled_to_cover(2 * floor, len)
    }
}

/// Doubling stops at the first value that covers `len`: the result is at
/// least `floor` and `len`, and unless it is `floor` itself, half of it
/// was still short of `len`.
pub proof fn lemma_doubled_covers(floor: nat, len: nat)
    requires
        floor > 0,
    ensures
        doubled_to_cover(floor, len) >= floor,
        doubled_to_cover(floor, len) >= len,
        doubled_to_cover(floor, len) == floor || doubled_to_cover(floor, len) < 2 * len,
    decreases shortfall(floor, len),
{
    if floor < len {
        lemma_doubled_covers(2 * floor, len);
    }
}

/// Doubling a power of two gives powers of two, and stays within
/// [`MAX_POWER_OF_TWO`] when `floor` and `len` do.
pub proof fn lemma_doubled_is_power_of_two(floor: usize, len: usize)
    requires
        is_power_of_two(floor),
        floor <= MAX_POWER_OF_TWO,
        len <= MAX_POWER_OF_TWO,
    ensures
        doubled_to_cover(floor as nat, len as nat) <= MAX_POWER_OF_TWO,
        is_power_of_two(doubled_to_cover(floor as nat, len as nat) as usize),
    decreases shortfall(floor as nat, len as nat),
{
    if floor < len {
        lemma_double_power_of_two(floor);
        lemma_doubled_is_power_of_two((2 * floor) as usize, len);
    }
}

/// A power of two is what doubling any smaller power of two arrives at.
pub proof fn lemma_doubled_reaches_power_of_two(floor: usize, len: usize)
    requires
        is_power_of_two(floor),
        is_power_of_two(len),
        floor <= len <= MAX_POWER_OF_TWO,
    ensures
        doubled_to_cover(floor as nat, len as nat) == len,
    decreases shortfall(floor as nat, len as nat),
{
    if floor < len {
        lemma_double_power_of_two(floor);
        let m = (len - 1) as usize;
        let f = (floor - 1) as usize;
        assert(floor > 0 && f == (floor - 1) as usize && floor & f == 0 && len > 0 && m == (len
            - 1) as usize && len & m == 0 && floor < len ==> floor <= len - floor) by (bit_vector);
        lemma_doubled_reaches_power_of_two((2 * floor) as usize, len);
    }
}

/// Twice a power of two below [`MAX_POWER_OF_TWO`] is a power of two
/// within it.
pub proof fn lemma_double_power_of_two(p: usize)
    requires
        is_power_of_two(p),
        p < MAX_POWER_OF_TWO,
    ensures
        2 * p <= MAX_POWER_OF_TWO,
        is_power_of_two((2 * p) as usize),
{
    let m = (p - 1) as usize;
    let d = (2 * p) as usize;
    let dm = (d - 1) as usize;
    assert(p > 0 && m == (p - 1) as usize && p & m == 0 && p < 0x8000_0000usize ==> p
        <= 0x4000_0000usize) by (bit_vector);
    assert(p > 0 && m == (p - 1) as usize && p & m == 0 && p <= 0x4000_0000usize && d == (2 * p) as usize
        && dm == (d - 1) as usize ==> d & dm == 0) by (bit_vector);
}

/// Doubles the power of two `floor` until it covers `len`.
pub fn double_to_cover(floor: usize, len: usize) -> (covered: usize)
    requires
        is_power_of_two(floor),
        floor <= MAX_POWER_OF_TWO,
        len <= MAX_POWER_OF_TWO,
    ensures
        covered == doubled_to_cover(floor as nat, len as nat),
        is_power_of_two(covered),
        covered >= len,
{
    let mut covered = floor;
    while covered < len
        invariant
            is_power_of_two(covered),
            covered <= MAX_POWER_OF_TWO,
            len <= MAX_POWER_OF_TWO,
            doubled_to_cover(floor as nat, len as nat) == doubled_to_cover(covered as nat, len as nat),
        decreases shortfall(covered as nat, len as nat),
    {
        proof {
            lemma_double_power_of_two(covered);
        }
        covered = 2 * covered;
    }
    covered
}

/// Executable test for a power-of-two length.
pub fn power_of_two(n: usize) -> (b: bool)
    ensures
        b == is_power_of_two(n),
{
    n > 0 && n & (n - 1) == 0
}

} // verus!
