//! The generator: state blocks plus an output cursor.
//!
//! The cursor indexes the flattened 32-bit view of the blocks; the value
//! `4 * n` means "exhausted". Every read goes through the cursor: a 32-bit
//! read regenerates first when no word is left, a 64-bit read regenerates
//! when fewer than two words are left, so its two halves never come from
//! different generations of the state.

use vstd::prelude::*;
use crate::cert::{certified, lemma_certified_parity, parity_value};
use crate::lanes::{lane, lane_of, pack64, pack64_exec};
use crate::params::{lemma_params_of_wf, params_of, Mexp, Params};
use crate::recurrence::{lemma_regenerated_len, regenerate_blocks, regenerated};
use crate::seed::{lemma_seed_word_unfold, seed_block, seed_word, seeded_state};

verus! {

/// The flattened 32-bit view of the state, lane 0 of block 0 first.
pub open spec fn words(st: Seq<u128>) -> Seq<u32> {
    Seq::new(st.len() * 4, |i: int| lane(st[i / 4], i % 4))
}

/// The mathematical content of a generator: its parameter set, its blocks
/// and its cursor into their flattened 32-bit view.
#[verifier::ext_equal]
pub struct GenView {
    /// the parameter set
    pub params: Params,
    /// the state blocks
    pub blocks: Seq<u128>,
    /// the next word of the flattened view to serve
    pub cursor: nat,
}

impl GenView {
    /// Length of the flattened 32-bit view.
    pub open spec fn n32(self) -> nat {
        (4 * self.params.n) as nat
    }

    /// The generator invariant: a well-formed parameter set, a state of
    /// exactly `n` blocks, and a cursor that never runs past the flattened
    /// view.
    pub open spec fn wf(self) -> bool {
        &&& self.params.wf()
        &&& self.blocks.len() == self.params.n
        &&& self.cursor <= self.n32()
    }
}

/// One 32-bit read: regenerate when the view is exhausted, then serve the
/// word under the cursor and advance it.
pub open spec fn step32(g: GenView) -> (GenView, u32) {
    let h = if g.cursor >= g.n32() {
        GenView { blocks: regenerated(g.params, g.blocks), cursor: 0, ..g }
    } else {
        g
    };
    (GenView { cursor: h.cursor + 1, ..h }, words(h.blocks)[h.cursor as int])
}

/// One 64-bit read: regenerate unless two words are left (a single
/// leftover word is discarded rather than split across generations), then
/// serve two adjacent words, the lower index in the low half.
pub open spec fn step64(g: GenView) -> (GenView, u64) {
    let h = if g.cursor + 1 >= g.n32() {
        GenView { blocks: regenerated(g.params, g.blocks), cursor: 0, ..g }
    } else {
        g
    };
    (
        GenView { cursor: h.cursor + 2, ..h },
        pack64(words(h.blocks)[h.cursor as int], words(h.blocks)[h.cursor as int + 1]),
    )
}

/// The generator after `k` 32-bit reads.
pub open spec fn steps32(g: GenView, k: nat) -> GenView
    decreases k,
{
    if k == 0 {
        g
    } else {
        step32(steps32(g, (k - 1) as nat)).0
    }
}

/// The first `k` outputs of repeated 32-bit reads.
pub open spec fn stream32(g: GenView, k: nat) -> Seq<u32>
    decreases k,
{
    if k == 0 {
        Seq::empty()
    } else {
        stream32(g, (k - 1) as nat).push(step32(steps32(g, (k - 1) as nat)).1)
    }
}

/// The eight bytes of a 64-bit word, least significant first.
pub open spec fn le_bytes8(v: u64) -> Seq<u8> {
    Seq::new(8, |i: int| (v >> ((8 * i) as u64)) as u8)
}

/// The four bytes of a 32-bit word, least significant first.
pub open spec fn le_bytes4(w: u32) -> Seq<u8> {
    Seq::new(4, |i: int| (w >> ((8 * i) as u32)) as u8)
}

/// A buffer of `nbytes` filled from successive reads, low-order bytes
/// first: whole 64-bit reads while eight bytes fit, then one more 64-bit
/// read for a tail of five to seven bytes, or one 32-bit read for a tail
/// of at most four.
pub open spec fn fill_spec(g: GenView, nbytes: nat) -> (GenView, Seq<u8>)
    decreases nbytes,
{
    if nbytes >= 8 {
        let s = step64(g);
        let rest = fill_spec(s.0, (nbytes - 8) as nat);
        (rest.0, le_bytes8(s.1) + rest.1)
    } else if nbytes > 4 {
        let s = step64(g);
        (s.0, le_bytes8(s.1).take(nbytes as int))
    } else if nbytes > 0 {
        let s = step32(g);
        (s.0, le_bytes4(s.1).take(nbytes as int))
    } else {
        (g, Seq::empty())
    }
}

/// Byte `j` (least significant first) of a 64-bit word.
fn byte_of_u64(v: u64, j: usize) -> (b: u8)
    requires
        j < 8,
    ensures
        b == le_bytes8(v)[j as int],
{
    (v >> ((8 * j) as u64)) as u8
}

/// Byte `j` (least significant first) of a 32-bit word.
fn byte_of_u32(w: u32, j: usize) -> (b: u8)
    requires
        j < 4,
    ensures
        b == le_bytes4(w)[j as int],
{
    (w >> ((8 * j) as u32)) as u8
}

/// The generator freshly built from a seed: the expanded and certified
/// state, with the cursor exhausted so that the first read regenerates.
pub open spec fn init_view(m: Mexp, seed: u32) -> GenView {
    let p = params_of(m);
    GenView {
        params: p,
        blocks: certified(p, seeded_state(seed, p.n as nat)),
        cursor: (4 * p.n) as nat,
    }
}

/// A 32-bit seed read from four bytes, least significant byte first.
pub open spec fn seed_from_le(s: Seq<u8>) -> u32 {
    (s[0] as u32) | ((s[1] as u32) << 8) | ((s[2] as u32) << 16) | ((s[3] as u32) << 24)
}

/// An SFMT generator instance.
pub struct SFMT {
    /// the parameter set, fixed for the lifetime of the instance
    pub(crate) params: Params,
    /// the 128-bit internal state array
    pub(crate) state: Vec<u128>,
    /// index counter into the 32-bit internal state array
    pub(crate) idx: usize,
}

impl View for SFMT {
    type V = GenView;

    closed spec fn view(&self) -> GenView {
        GenView { params: self.params, blocks: self.state@, cursor: self.idx as nat }
    }
}

impl Clone for SFMT {
    /// A clone is a deep copy: it has the same view, and the two instances
    /// evolve independently afterwards.
    fn clone(&self) -> (r: Self)
        ensures
            r@ == self@,
    {
        let r = SFMT { params: self.params, state: self.state.clone(), idx: self.idx };
        proof {
            assert(r.state@ =~= self.state@);
        }
        r
    }
}

impl SFMT {
    /// The generator invariant.
    pub open spec fn wf(self) -> bool {
        self@.wf()
    }

    /// The parameter set of this instance.
    pub fn params(&self) -> (p: Params)
        ensures
            p == self@.params,
    {
        self.params
    }

    /// The current cursor position in the flattened 32-bit view.
    pub fn cursor(&self) -> (c: usize)
        ensures
            c == self@.cursor,
    {
        self.idx
    }

    /// Word `i` of the flattened 32-bit view of the current state.
    pub fn state_word(&self, i: usize) -> (w: u32)
        requires
            self.wf(),
            i < self@.n32(),
        ensures
            w == words(self@.blocks)[i as int],
    {
        let b = self.state[i / 4];
        lane_of(b, i % 4)
    }

    /// Serve the word under the cursor and advance the cursor.
    fn pop32(&mut self) -> (r: u32)
        requires
            old(self).wf(),
            old(self)@.cursor < old(self)@.n32(),
        ensures
            final(self)@ == (GenView { cursor: old(self)@.cursor + 1, ..old(self)@ }),
            r == words(old(self)@.blocks)[old(self)@.cursor as int],
    {
        let b = self.state[self.idx / 4];
        let val = lane_of(b, self.idx % 4);
        self.idx = self.idx + 1;
        val
    }

    /// Serve the two words under the cursor as one 64-bit value, the lower
    /// index in the low half, and advance the cursor by two.
    fn pop64(&mut self) -> (r: u64)
        requires
            old(self).wf(),
            old(self)@.cursor + 2 <= old(self)@.n32(),
        ensures
            final(self)@ == (GenView { cursor: old(self)@.cursor + 2, ..old(self)@ }),
            r == pack64(
                words(old(self)@.blocks)[old(self)@.cursor as int],
                words(old(self)@.blocks)[old(self)@.cursor as int + 1],
            ),
    {
        let lo = self.state_word(self.idx);
        let hi = self.state_word(self.idx + 1);
        self.idx = self.idx + 2;
        pack64_exec(lo, hi)
    }

    /// Regenerate the whole state and reset the cursor.
    fn gen_all(&mut self)
        requires
            old(self).wf(),
        ensures
            final(self).wf(),
            final(self)@ == (GenView {
                blocks: regenerated(old(self)@.params, old(self)@.blocks),
                cursor: 0,
                ..old(self)@
            }),
    {
        sfmt_gen_rand_all(self);
        self.idx = 0;
    }

    /// The next 32-bit output word.
    pub fn next_u32(&mut self) -> (r: u32)
        requires
            old(self).wf(),
        ensures
            final(self).wf(),
            (final(self)@, r) == step32(old(self)@),
    {
        if self.idx >= 4 * self.params.n {
            self.gen_all();
            proof {
                lemma_regenerated_len(old(self)@.params, old(self)@.blocks);
            }
        }
        self.pop32()
    }

    /// The next 64-bit output word, two adjacent 32-bit words of one
    /// generation packed with the lower index in the low half.
    pub fn next_u64(&mut self) -> (r: u64)
        requires
            old(self).wf(),
        ensures
            final(self).wf(),
            (final(self)@, r) == step64(old(self)@),
    {
        if self.idx >= 4 * self.params.n - 1 {
            self.gen_all();
            proof {
                lemma_regenerated_len(old(self)@.params, old(self)@.blocks);
            }
        }
        self.pop64()
    }

    /// Fill `dest` with output bytes, each read's low-order bytes first:
    /// 64-bit reads while eight bytes fit, then one more 64-bit read for a
    /// tail of five to seven bytes, or one 32-bit read for a shorter tail.
    pub fn fill_bytes(&mut self, dest: &mut Vec<u8>)
        requires
            old(self).wf(),
        ensures
            final(self).wf(),
            final(self)@ == fill_spec(old(self)@, old(dest)@.len() as nat).0,
            final(dest)@ == fill_spec(old(self)@, old(dest)@.len() as nat).1,
            final(dest)@.len() == old(dest)@.len(),
    {
        let ghost g0 = self@;
        let len = dest.len();
        let mut out: Vec<u8> = Vec::new();
        while len - out.len() >= 8
            invariant
                self.wf(),
                out@.len() <= len,
                fill_spec(g0, len as nat).0 == fill_spec(self@, (len - out@.len()) as nat).0,
                fill_spec(g0, len as nat).1 == out@ + fill_spec(
                    self@,
                    (len - out@.len()) as nat,
                ).1,
            decreases len - out.len(),
        {
            let ghost pre = self@;
            let ghost base = out@;
            let ghost rem = (len - out@.len()) as nat;
            let v = self.next_u64();
            let mut j: usize = 0;
            while j < 8
                invariant
                    j <= 8,
                    out@ == base + le_bytes8(v).take(j as int),
                decreases 8 - j,
            {
                let b = byte_of_u64(v, j);
                proof {
                    assert(base + le_bytes8(v).take(j + 1) =~= (base + le_bytes8(v).take(
                        j as int,
                    )).push(le_bytes8(v)[j as int]));
                }
                out.push(b);
                j = j + 1;
            }
            proof {
                assert(out@ == base + le_bytes8(v)) by {
                    assert(le_bytes8(v).take(8) =~= le_bytes8(v));
                };
                let rest = fill_spec(self@, (rem - 8) as nat);
                assert(fill_spec(pre, rem) == (rest.0, le_bytes8(v) + rest.1));
                assert(base + (le_bytes8(v) + rest.1) =~= (base + le_bytes8(v)) + rest.1);
            }
        }
        let rem = len - out.len();
        let ghost pre = self@;
        let ghost base = out@;
        if rem > 4 {
            let v = self.next_u64();
            let mut j: usize = 0;
            while j < rem
                invariant
                    j <= rem,
                    4 < rem < 8,
                    out@ == base + le_bytes8(v).take(j as int),
                decreases rem - j,
            {
                let b = byte_of_u64(v, j);
                proof {
                    assert(base + le_bytes8(v).take(j + 1) =~= (base + le_bytes8(v).take(
                        j as int,
                    )).push(le_bytes8(v)[j as int]));
                }
                out.push(b);
                j = j + 1;
            }
            assert(fill_spec(pre, rem as nat) == (self@, le_bytes8(v).take(rem as int)));
        } else if rem > 0 {
            let w = self.next_u32();
            let mut j: usize = 0;
            while j < rem
                invariant
                    j <= rem,
                    0 < rem <= 4,
                    out@ == base + le_bytes4(w).take(j as int),
                decreases rem - j,
            {
                let b = byte_of_u32(w, j);
                proof {
                    assert(base + le_bytes4(w).take(j + 1) =~= (base + le_bytes4(w).take(
                        j as int,
                    )).push(le_bytes4(w)[j as int]));
                }
                out.push(b);
                j = j + 1;
            }
            assert(fill_spec(pre, rem as nat) == (self@, le_bytes4(w).take(rem as int)));
        }
        proof {
            assert(fill_spec(g0, len as nat).1 == out@);
        }
        *dest = out;
    }

    /// Like `fill_bytes`; the result is always `Ok`, since no read can
    /// fail.
    pub fn try_fill_bytes(&mut self, dest: &mut Vec<u8>) -> (r: Result<(), ()>)
        requires
            old(self).wf(),
        ensures
            final(self).wf(),
            r is Ok,
            final(self)@ == fill_spec(old(self)@, old(dest)@.len() as nat).0,
            final(dest)@ == fill_spec(old(self)@, old(dest)@.len() as nat).1,
            final(dest)@.len() == old(dest)@.len(),
    {
        self.fill_bytes(dest);
        Ok(())
    }

    /// A generator built from a four-byte seed, read as a 32-bit integer
    /// least significant byte first.
    pub fn from_seed(m: Mexp, seed: [u8; 4]) -> (r: SFMT)
        ensures
            r.wf(),
            r@ == init_view(m, seed_from_le(seed@)),
    {
        let s32: u32 = (seed[0] as u32) | ((seed[1] as u32) << 8) | ((seed[2] as u32) << 16) | ((
        seed[3] as u32) << 24);
        let p = m.params();
        let mut st: Vec<u128> = Vec::new();
        let mut k: usize = 0;
        while k < p.n
            invariant
                st@.len() == k,
                k <= p.n,
            decreases p.n - k,
        {
            st.push(0u128);
            k = k + 1;
        }
        let mut r = SFMT { params: p, state: st, idx: 0 };
        sfmt_init_gen_rand(&mut r, s32);
        r
    }
}

/// Determinism, and independence of a clone: the outputs are a function
/// of the generator's view alone, so two generators with equal views — a
/// fresh pair built from one seed, or a generator and its clone — yield
/// the same output stream however long both are driven.
pub proof fn lemma_stream_determined(g1: GenView, g2: GenView, k: nat)
    requires
        g1 == g2,
    ensures
        stream32(g1, k) == stream32(g2, k),
        steps32(g1, k) == steps32(g2, k),
        step64(g1) == step64(g2),
        fill_spec(g1, k) == fill_spec(g2, k),
{
}

/// A byte fill covers exactly the requested length, a trailing partial
/// word included.
pub proof fn lemma_fill_spec_len(g: GenView, nbytes: nat)
    ensures
        fill_spec(g, nbytes).1.len() == nbytes,
    decreases nbytes,
{
    if nbytes >= 8 {
        lemma_fill_spec_len(step64(g).0, (nbytes - 8) as nat);
    }
}

/// Regeneration happens exactly at the cursor boundary: from a fresh
/// (exhausted) generator, the first 32-bit read regenerates the state
/// once, the reads up to the `4n`-th leave those blocks untouched, and
/// the read after that regenerates exactly a second time.
pub proof fn lemma_regeneration_boundary(g: GenView, k: nat)
    requires
        g.wf(),
        g.cursor == g.n32(),
        1 <= k <= g.n32(),
    ensures
        steps32(g, k).params == g.params,
        steps32(g, k).blocks == regenerated(g.params, g.blocks),
        steps32(g, k).cursor == k,
        k == g.n32() ==> step32(steps32(g, k)).0.blocks == regenerated(
            g.params,
            regenerated(g.params, g.blocks),
        ),
    decreases k,
{
    lemma_regenerated_len(g.params, g.blocks);
    if k == 1 {
        assert(steps32(g, 0) == g);
        assert(steps32(g, 1) == step32(g).0);
    } else {
        lemma_regeneration_boundary(g, (k - 1) as nat);
        assert(steps32(g, k) == step32(steps32(g, (k - 1) as nat)).0);
    }
}

/// A 64-bit read never straddles a regeneration boundary: its two halves
/// are adjacent words of the one state generation that the read leaves
/// behind, the lower index in the low half.
pub proof fn lemma_u64_one_generation(g: GenView)
    requires
        g.wf(),
    ensures
        step64(g).1 == pack64(
            words(step64(g).0.blocks)[step64(g).0.cursor - 2],
            words(step64(g).0.blocks)[step64(g).0.cursor - 1],
        ),
{
}

/// Rewrite every block of the state with the recurrence, leaving the
/// cursor as it is.
pub fn sfmt_gen_rand_all(sfmt: &mut SFMT)
    requires
        old(sfmt).wf(),
    ensures
        final(sfmt).wf(),
        final(sfmt)@ == (GenView {
            blocks: regenerated(old(sfmt)@.params, old(sfmt)@.blocks),
            ..old(sfmt)@
        }),
{
    let p = sfmt.params;
    regenerate_blocks(&p, &mut sfmt.state);
    proof {
        lemma_regenerated_len(old(sfmt)@.params, old(sfmt)@.blocks);
    }
}

/// Check the parity of the inner product of the first block's lanes with
/// the parity words; when it is even, flip the lowest eligible bit. Every
/// supported parameter set has an odd first parity word, so that bit is
/// bit 0 of lane 0.
pub fn period_certification(sfmt: &mut SFMT)
    requires
        old(sfmt).wf(),
    ensures
        final(sfmt).wf(),
        final(sfmt)@ == (GenView {
            blocks: certified(old(sfmt)@.params, old(sfmt)@.blocks),
            ..old(sfmt)@
        }),
        parity_value(final(sfmt)@.params, final(sfmt)@.blocks[0]) == 1,
{
    proof {
        lemma_certified_parity(old(sfmt)@.params, old(sfmt)@.blocks);
    }
    let b0 = sfmt.state[0];
    let p = &sfmt.params;
    let inner: u32 = (lane_of(b0, 0) & p.pty0) ^ (lane_of(b0, 1) & p.pty1) ^ (lane_of(b0, 2)
        & p.pty2) ^ (lane_of(b0, 3) & p.pty3);
    let inner = inner ^ (inner >> 16u32);
    let inner = inner ^ (inner >> 8u32);
    let inner = inner ^ (inner >> 4u32);
    let inner = inner ^ (inner >> 2u32);
    let inner = inner ^ (inner >> 1u32);
    let inner = inner & 1;
    if inner == 1 {
        return ;
    }
    sfmt.state[0] = b0 ^ 1;
}

/// Expand `seed` over the whole state, mark the cursor exhausted, and run
/// period certification once.
pub fn sfmt_init_gen_rand(sfmt: &mut SFMT, seed: u32)
    requires
        old(sfmt).wf(),
    ensures
        final(sfmt).wf(),
        final(sfmt)@ == (GenView {
            blocks: certified(old(sfmt)@.params, seeded_state(seed, old(sfmt)@.params.n as nat)),
            cursor: old(sfmt)@.n32(),
            ..old(sfmt)@
        }),
{
    let n = sfmt.params.n;
    let mut pre: u32 = seed;
    let mut k: usize = 0;
    while k < n
        invariant
            sfmt.params == old(sfmt)@.params,
            sfmt.params.wf(),
            n == sfmt.params.n,
            sfmt.state@.len() == n,
            k <= n,
            pre == seed_word(seed, 4 * k as nat),
            forall|j: int| 0 <= j < k ==> sfmt.state@[j] == seed_block(seed, j as nat),
        decreases n - k,
    {
        proof {
            lemma_seed_word_unfold(seed, k as nat);
        }
        let (v, pre2) = crate::seed::map(pre, k as u32);
        sfmt.state[k] = v;
        pre = pre2;
        k = k + 1;
    }
    assert(sfmt.state@ =~= seeded_state(seed, n as nat));
    sfmt.idx = 4 * n;
    period_certification(sfmt);
}

} // verus!
