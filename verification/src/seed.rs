//! Seed expansion.
//!
//! A 32-bit seed is stretched over the whole state by a scalar mixing
//! recurrence evaluated with 32-bit wraparound arithmetic. The seed words
//! are chained: within a block the three upper lanes each mix the lane
//! below them, and the word carried into the next block mixes lane 2 of the
//! block just filled.

use vstd::prelude::*;
use crate::lanes::from_lanes;

verus! {

/// Arithmetic right shift by 30: the seed word is mixed as a signed 32-bit
/// value, so the two surviving bits are sign-extended.
pub open spec fn sar30(x: u32) -> u32 {
    if x >= 0x8000_0000 {
        (x >> 30) | 0xffff_fffcu32
    } else {
        x >> 30
    }
}

/// One step of the mixing recurrence, with silent 32-bit wraparound.
pub open spec fn mix(pre: u32, i: u32) -> u32 {
    vstd::wrapping::u32_specs::wrapping_add(
        vstd::wrapping::u32_specs::wrapping_mul(1812433253u32, pre ^ sar30(pre)),
        i,
    )
}

/// Word `j` of the expanded seed, in the flattened 32-bit view of the
/// state. Word 0 is the seed itself; a word opening a block (`j % 4 == 0`)
/// mixes the word two places back (lane 2 of the previous block), every
/// other word mixes its predecessor.
pub open spec fn seed_word(seed: u32, j: nat) -> u32
    decreases j,
{
    if j == 0 {
        seed
    } else if j % 4 == 0 {
        mix(seed_word(seed, (j - 2) as nat), j as u32)
    } else {
        mix(seed_word(seed, (j - 1) as nat), j as u32)
    }
}

/// Block `k` of the expanded seed.
pub open spec fn seed_block(seed: u32, k: nat) -> u128 {
    from_lanes(
        seed_word(seed, 4 * k),
        seed_word(seed, 4 * k + 1),
        seed_word(seed, 4 * k + 2),
        seed_word(seed, 4 * k + 3),
    )
}

/// The full expanded state of `n` blocks, before period certification.
pub open spec fn seeded_state(seed: u32, n: nat) -> Seq<u128> {
    Seq::new(n, |k: int| seed_block(seed, k as nat))
}

/// Arithmetic right shift by 30.
pub fn sar30_exec(x: u32) -> (r: u32)
    ensures
        r == sar30(x),
{
    if x >= 0x8000_0000 {
        (x >> 30u32) | 0xffff_fffcu32
    } else {
        x >> 30u32
    }
}

/// One step of the mixing recurrence.
pub fn iterate(pre: u32, i: u32) -> (r: u32)
    ensures
        r == mix(pre, i),
{
    1812433253u32.wrapping_mul(pre ^ sar30_exec(pre)).wrapping_add(i)
}

/// Block `idx` of the expansion, given the word `a` carried into it; also
/// returns the word carried into the next block.
pub fn map(a: u32, idx: u32) -> (r: (u128, u32))
    requires
        4 * idx + 4 <= u32::MAX,
    ensures
        r.0 == from_lanes(
            a,
            mix(a, (4 * idx + 1) as u32),
            mix(mix(a, (4 * idx + 1) as u32), (4 * idx + 2) as u32),
            mix(mix(mix(a, (4 * idx + 1) as u32), (4 * idx + 2) as u32), (4 * idx + 3) as u32),
        ),
        r.1 == mix(mix(mix(a, (4 * idx + 1) as u32), (4 * idx + 2) as u32), (4 * idx + 4) as u32),
{
    let b = iterate(a, 4 * idx + 1);
    let c = iterate(b, 4 * idx + 2);
    let d = iterate(c, 4 * idx + 3);
    let a2 = iterate(c, 4 * idx + 4);
    ((a as u128) | ((b as u128) << 32) | ((c as u128) << 64) | ((d as u128) << 96), a2)
}

/// The expansion fills the state in block order: within block `k` each of
/// the three upper seed words mixes the word below it, and the word opening
/// block `k + 1` mixes seed word `4k + 2`.
pub proof fn lemma_seed_word_unfold(seed: u32, k: nat)
    ensures
        seed_word(seed, 4 * k + 1) == mix(seed_word(seed, 4 * k), (4 * k + 1) as u32),
        seed_word(seed, 4 * k + 2) == mix(seed_word(seed, 4 * k + 1), (4 * k + 2) as u32),
        seed_word(seed, 4 * k + 3) == mix(seed_word(seed, 4 * k + 2), (4 * k + 3) as u32),
        seed_word(seed, 4 * k + 4) == mix(seed_word(seed, 4 * k + 2), (4 * k + 4) as u32),
        seed_block(seed, k) == from_lanes(
            seed_word(seed, 4 * k),
            seed_word(seed, 4 * k + 1),
            seed_word(seed, 4 * k + 2),
            seed_word(seed, 4 * k + 3),
        ),
{
    assert((4 * k + 1) % 4 == 1 && (4 * k + 2) % 4 == 2 && (4 * k + 3) % 4 == 3 && (4 * k + 4) % 4
        == 0);
    assert(seed_word(seed, 4 * k + 4) == mix(seed_word(seed, (4 * k + 4 - 2) as nat), (4 * k
        + 4) as u32));
}

} // verus!
