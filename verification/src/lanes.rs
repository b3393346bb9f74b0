//! A 128-bit block viewed as four 32-bit lanes.
//!
//! A block is a `u128`; lane 0 is its lowest 32 bits. The recurrence needs
//! bitwise AND and XOR on whole blocks, a logical shift applied to each lane
//! separately, and a byte-granularity shift of the whole block.

use vstd::prelude::*;

verus! {

/// Lane `j` of a block, lane 0 lowest.
pub open spec fn lane(v: u128, j: int) -> u32 {
    if j == 0 {
        v as u32
    } else if j == 1 {
        (v >> 32) as u32
    } else if j == 2 {
        (v >> 64) as u32
    } else {
        (v >> 96) as u32
    }
}

/// The block whose lanes are `l0` (lowest) through `l3`.
pub open spec fn from_lanes(l0: u32, l1: u32, l2: u32, l3: u32) -> u128 {
    (l0 as u128) | ((l1 as u128) << 32) | ((l2 as u128) << 64) | ((l3 as u128) << 96)
}

/// Logical right shift of each lane by `sh` bits.
pub open spec fn lane_srl(v: u128, sh: u32) -> u128 {
    from_lanes(lane(v, 0) >> sh, lane(v, 1) >> sh, lane(v, 2) >> sh, lane(v, 3) >> sh)
}

/// Logical left shift of each lane by `sh` bits.
pub open spec fn lane_sll(v: u128, sh: u32) -> u128 {
    from_lanes(lane(v, 0) << sh, lane(v, 1) << sh, lane(v, 2) << sh, lane(v, 3) << sh)
}

/// Two 32-bit words packed into one 64-bit word, `lo` in the low half.
pub open spec fn pack64(lo: u32, hi: u32) -> u64 {
    (lo as u64) | ((hi as u64) << 32)
}

/// Lane `j` of a block.
pub fn lane_of(v: u128, j: usize) -> (r: u32)
    requires
        j < 4,
    ensures
        r == lane(v, j as int),
{
    if j == 0 {
        v as u32
    } else if j == 1 {
        (v >> 32) as u32
    } else if j == 2 {
        (v >> 64) as u32
    } else {
        (v >> 96) as u32
    }
}

/// Logical right shift of each lane by `sh` bits.
pub fn lane_srl_exec(v: u128, sh: u32) -> (r: u128)
    requires
        sh < 32,
    ensures
        r == lane_srl(v, sh),
{
    let l0: u32 = (v as u32) >> sh;
    let l1: u32 = ((v >> 32) as u32) >> sh;
    let l2: u32 = ((v >> 64) as u32) >> sh;
    let l3: u32 = ((v >> 96) as u32) >> sh;
    (l0 as u128) | ((l1 as u128) << 32) | ((l2 as u128) << 64) | ((l3 as u128) << 96)
}

/// Logical left shift of each lane by `sh` bits.
pub fn lane_sll_exec(v: u128, sh: u32) -> (r: u128)
    requires
        sh < 32,
    ensures
        r == lane_sll(v, sh),
{
    let l0: u32 = (v as u32) << sh;
    let l1: u32 = ((v >> 32) as u32) << sh;
    let l2: u32 = ((v >> 64) as u32) << sh;
    let l3: u32 = ((v >> 96) as u32) << sh;
    (l0 as u128) | ((l1 as u128) << 32) | ((l2 as u128) << 64) | ((l3 as u128) << 96)
}

/// Two 32-bit words packed into one 64-bit word, `lo` in the low half.
pub fn pack64_exec(lo: u32, hi: u32) -> (r: u64)
    ensures
        r == pack64(lo, hi),
{
    (lo as u64) | ((hi as u64) << 32)
}

} // verus!
