//! The state-transition engine.
//!
//! Each regeneration rewrites every block of the state in place. The new
//! value of a block combines the block itself, the block `pos1` places
//! further on (wrapping around the end of the array exactly once), and the
//! two most recently rewritten blocks, seeded from the last two blocks of
//! the previous state.

use vstd::prelude::*;
use vstd::arithmetic::div_mod::lemma_small_mod;
use crate::lanes::{lane_sll, lane_sll_exec, lane_srl, lane_srl_exec};
use crate::params::Params;

verus! {

/// The per-block recurrence: `a` is the block being replaced, `b` the block
/// `pos1` places on, `c` and `d` the two previous outputs of this pass.
pub open spec fn recurrence(p: Params, a: u128, b: u128, c: u128, d: u128) -> u128 {
    (c >> ((8 * p.sr2) as u32)) ^ a ^ lane_sll(d, p.sl1) ^ (a << ((8 * p.sl2) as u32)) ^ (lane_srl(
        b,
        p.sr1,
    ) & p.msk)
}

/// The value written at index `i` of a pass over `cur`, the state array in
/// which indices below `i` are already rewritten and the rest still hold the
/// previous state. The two carried blocks are read off `cur`: the entries
/// just below `i` where those are already rewritten, the tail of the
/// previous state otherwise.
pub open spec fn pass_step(p: Params, cur: Seq<u128>, i: int) -> u128 {
    recurrence(
        p,
        cur[i],
        cur[(i + p.pos1) % (p.n as int)],
        if i >= 2 {
            cur[i - 2]
        } else {
            cur[i + p.n - 2]
        },
        if i >= 1 {
            cur[i - 1]
        } else {
            cur[p.n - 1]
        },
    )
}

/// The state after the first `i` blocks of a pass over `st0` are rewritten.
pub open spec fn pass_upto(p: Params, st0: Seq<u128>, i: nat) -> Seq<u128>
    decreases i,
{
    if i == 0 {
        st0
    } else {
        let cur = pass_upto(p, st0, (i - 1) as nat);
        cur.update(i - 1, pass_step(p, cur, i - 1))
    }
}

/// The state after one full regeneration pass over `st0`.
pub open spec fn regenerated(p: Params, st0: Seq<u128>) -> Seq<u128> {
    pass_upto(p, st0, p.n as nat)
}

/// A partial pass keeps the length, and leaves the blocks at and above `i`
/// untouched.
pub proof fn lemma_pass_upto_frame(p: Params, st0: Seq<u128>, i: nat)
    requires
        st0.len() == p.n,
        i <= p.n,
    ensures
        pass_upto(p, st0, i).len() == p.n,
        forall|j: int| i <= j < p.n ==> pass_upto(p, st0, i)[j] == st0[j],
    decreases i,
{
    if i > 0 {
        lemma_pass_upto_frame(p, st0, (i - 1) as nat);
    }
}

/// Regeneration keeps the length of the state.
pub proof fn lemma_regenerated_len(p: Params, st0: Seq<u128>)
    requires
        st0.len() == p.n,
    ensures
        regenerated(p, st0).len() == p.n,
{
    lemma_pass_upto_frame(p, st0, p.n as nat);
}

/// The per-block recurrence.
pub fn recursion(p: &Params, a: u128, b: u128, c: u128, d: u128) -> (r: u128)
    requires
        p.wf(),
    ensures
        r == recurrence(*p, a, b, c, d),
{
    let y: u128 = lane_srl_exec(b, p.sr1);
    let z: u128 = c >> (8 * p.sr2);
    let v: u128 = lane_sll_exec(d, p.sl1);
    let z: u128 = z ^ a;
    let z: u128 = z ^ v;
    let x: u128 = a << (8 * p.sl2);
    let y: u128 = y & p.msk;
    let z: u128 = z ^ x;
    z ^ y
}

/// One full regeneration pass, in place.
pub fn regenerate_blocks(p: &Params, st: &mut Vec<u128>)
    requires
        p.wf(),
        old(st)@.len() == p.n,
    ensures
        final(st)@ == regenerated(*p, old(st)@),
{
    let ghost st0 = st@;
    let n = p.n;
    let pos1 = p.pos1;
    let mut r1: u128 = st[n - 2];
    let mut r2: u128 = st[n - 1];
    let mut i: usize = 0;
    while i < n - pos1
        invariant
            p.wf(),
            n == p.n,
            pos1 == p.pos1,
            st0.len() == n,
            i <= n - pos1,
            st@ == pass_upto(*p, st0, i as nat),
            st@.len() == n,
            r2 == if i >= 1 {
                st@[i - 1]
            } else {
                st@[n - 1]
            },
            r1 == if i >= 2 {
                st@[i - 2]
            } else {
                st@[i + n - 2]
            },
        decreases n - pos1 - i,
    {
        proof {
            lemma_small_mod((i + pos1) as nat, n as nat);
        }
        let nb = recursion(p, st[i], st[i + pos1], r1, r2);
        assert(nb == pass_step(*p, st@, i as int));
        st[i] = nb;
        r1 = r2;
        r2 = nb;
        i = i + 1;
    }
    while i < n
        invariant
            p.wf(),
            n == p.n,
            pos1 == p.pos1,
            st0.len() == n,
            n - pos1 <= i <= n,
            st@ == pass_upto(*p, st0, i as nat),
            st@.len() == n,
            r2 == if i >= 1 {
                st@[i - 1]
            } else {
                st@[n - 1]
            },
            r1 == if i >= 2 {
                st@[i - 2]
            } else {
                st@[i + n - 2]
            },
        decreases n - i,
    {
        proof {
            lemma_small_mod((i + pos1 - n) as nat, n as nat);
            assert(((i + pos1) % (n as int)) == ((i + pos1 - n) % (n as int))) by (nonlinear_arith)
                requires
                    0 < n <= i + pos1 < 2 * n,
            ;
        }
        let nb = recursion(p, st[i], st[i + pos1 - n], r1, r2);
        assert(nb == pass_step(*p, st@, i as int));
        st[i] = nb;
        r1 = r2;
        r2 = nb;
        i = i + 1;
    }
}

} // verus!
