//! Period certification.
//!
//! The generator's minimum period is guaranteed only if the inner product
//! of the first block's lanes with the parity words has odd parity. When
//! the freshly expanded state fails that check, exactly one bit of the
//! first block is flipped; for every supported parameter set the first
//! parity word is odd, so the lowest eligible bit is bit 0 of lane 0.

use vstd::prelude::*;
use crate::lanes::lane;
use crate::params::Params;

verus! {

/// Parity (0 or 1) of a 32-bit word, by folding its halves together.
pub open spec fn xor_fold(x: u32) -> u32 {
    let a = x ^ (x >> 16);
    let b = a ^ (a >> 8);
    let c = b ^ (b >> 4);
    let d = c ^ (c >> 2);
    let e = d ^ (d >> 1);
    e & 1
}

/// The certification check on a first block `b0`: the parity of the
/// AND-then-XOR inner product of its lanes with the parity words.
pub open spec fn parity_value(p: Params, b0: u128) -> u32 {
    xor_fold(
        (lane(b0, 0) & p.pty0) ^ (lane(b0, 1) & p.pty1) ^ (lane(b0, 2) & p.pty2) ^ (lane(b0, 3)
            & p.pty3),
    )
}

/// The certified state: unchanged when the check already has odd parity,
/// otherwise the first block with bit 0 flipped.
pub open spec fn certified(p: Params, st: Seq<u128>) -> Seq<u128> {
    if parity_value(p, st[0]) == 1 {
        st
    } else {
        st.update(0, st[0] ^ 1)
    }
}

/// Certification establishes the parity guarantee: a state that passes the
/// check is kept as it is, one that fails it has exactly bit 0 of lane 0 of
/// its first block flipped, and the result always passes the check.
pub proof fn lemma_certified_parity(p: Params, st: Seq<u128>)
    requires
        p.wf(),
        st.len() >= 1,
    ensures
        parity_value(p, st[0]) == 1 ==> certified(p, st) == st,
        parity_value(p, st[0]) != 1 ==> certified(p, st) == st.update(0, st[0] ^ 1),
        parity_value(p, st[0]) != 1 ==> lane(certified(p, st)[0], 0) == lane(st[0], 0) ^ 1u32
            && lane(certified(p, st)[0], 1) == lane(st[0], 1) && lane(certified(p, st)[0], 2)
            == lane(st[0], 2) && lane(certified(p, st)[0], 3) == lane(st[0], 3),
        parity_value(p, certified(p, st)[0]) == 1,
{
    let v = st[0];
    let x = (lane(v, 0) & p.pty0) ^ (lane(v, 1) & p.pty1) ^ (lane(v, 2) & p.pty2) ^ (lane(v, 3)
        & p.pty3);
    assert(xor_fold(x) == 0 || xor_fold(x) == 1) by (bit_vector);
    if parity_value(p, st[0]) != 1 {
        let w = v ^ 1;
        assert((v ^ 1) as u32 == (v as u32) ^ 1u32) by (bit_vector);
        assert(((v ^ 1) >> 32) as u32 == (v >> 32) as u32) by (bit_vector);
        assert(((v ^ 1) >> 64) as u32 == (v >> 64) as u32) by (bit_vector);
        assert(((v ^ 1) >> 96) as u32 == (v >> 96) as u32) by (bit_vector);
        let l0 = lane(v, 0);
        let m0 = p.pty0;
        assert((l0 ^ 1u32) & m0 == (l0 & m0) ^ 1u32) by (bit_vector)
            requires
                m0 % 2 == 1,
        ;
        let y = x ^ 1;
        assert((lane(w, 0) & p.pty0) ^ (lane(v, 1) & p.pty1) ^ (lane(v, 2) & p.pty2) ^ (lane(v, 3)
            & p.pty3) == y) by {
            let a0 = lane(v, 0) & p.pty0;
            let a1 = lane(v, 1) & p.pty1;
            let a2 = lane(v, 2) & p.pty2;
            let a3 = lane(v, 3) & p.pty3;
            assert(lane(w, 0) & p.pty0 == a0 ^ 1u32);
            assert((a0 ^ 1u32) ^ a1 ^ a2 ^ a3 == (a0 ^ a1 ^ a2 ^ a3) ^ 1u32) by (bit_vector);
        };
        assert(xor_fold(x ^ 1) == xor_fold(x) ^ 1u32 && (xor_fold(x) == 0 ==> xor_fold(x ^ 1)
            == 1)) by (bit_vector);
        assert(parity_value(p, w) == xor_fold(y));
        assert(xor_fold(y) == 1);
    }
}

} // verus!
