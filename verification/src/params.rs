//! Per-size constants of the SFMT family.
//!
//! Each supported Mersenne exponent fixes one parameter set: the block
//! offset of the second recurrence input, four shift amounts, the 128-bit
//! AND mask and the four period-certification parity words.

use vstd::prelude::*;

verus! {

/// The ten supported Mersenne exponents. The exponent fixes the length of
/// the internal state and thereby the guaranteed minimum period.
#[derive(Clone, Copy, PartialEq, Eq, Structural, Debug)]
pub enum Mexp {
    M607,
    M1279,
    M2281,
    M4253,
    M11213,
    M19937,
    M44497,
    M86243,
    M132049,
    M216091,
}

/// One parameter set of the SFMT recurrence and its period certification.
#[derive(Clone, Copy, Debug)]
pub struct Params {
    /// state length, in 128-bit blocks
    pub n: usize,
    /// block offset of the second recurrence input
    pub pos1: usize,
    /// per-lane left shift, in bits
    pub sl1: u32,
    /// whole-block left shift, in bytes
    pub sl2: u32,
    /// per-lane right shift, in bits
    pub sr1: u32,
    /// whole-block right shift, in bytes
    pub sr2: u32,
    /// 128-bit AND mask, applied to the lane-shifted second input
    pub msk: u128,
    /// parity word checked against lane 0 during period certification
    pub pty0: u32,
    /// parity word checked against lane 1
    pub pty1: u32,
    /// parity word checked against lane 2
    pub pty2: u32,
    /// parity word checked against lane 3
    pub pty3: u32,
}

impl Params {
    /// Bounds that every supported parameter set satisfies. They make the
    /// shifts legal, the index arithmetic free of overflow, and the
    /// period-certification flip land on bit 0 of lane 0.
    pub open spec fn wf(self) -> bool {
        &&& 2 <= self.n <= 1689
        &&& 1 <= self.pos1 < self.n
        &&& 1 <= self.sl1 < 32
        &&& 1 <= self.sr1 < 32
        &&& 1 <= self.sl2 < 16
        &&& 1 <= self.sr2 < 16
        &&& self.pty0 % 2 == 1
    }

    /// Length of the state in 32-bit words.
    pub open spec fn n32(self) -> int {
        4 * self.n
    }
}

/// The parameter set belonging to a Mersenne exponent.
pub open spec fn params_of(m: Mexp) -> Params {
    match m {
        Mexp::M607 => (Params {
            n: 5,
            pos1: 2,
            sl1: 15,
            sl2: 3,
            sr1: 13,
            sr2: 3,
            msk: 0xfdff37ffu128 | (0xef7f3f7du128 << 32) | (0xff777b7du128 << 64) | (
            0x7ff7fb2fu128 << 96),
            pty0: 0x00000001,
            pty1: 0x00000000,
            pty2: 0x00000000,
            pty3: 0x5986f054,
        }),
        Mexp::M1279 => (Params {
            n: 10,
            pos1: 7,
            sl1: 14,
            sl2: 3,
            sr1: 5,
            sr2: 1,
            msk: 0xf7fefffdu128 | (0x7fefcfffu128 << 32) | (0xaff3ef3fu128 << 64) | (
            0xb5ffff7fu128 << 96),
            pty0: 0x00000001,
            pty1: 0x00000000,
            pty2: 0x00000000,
            pty3: 0x20000000,
        }),
        Mexp::M2281 => (Params {
            n: 18,
            pos1: 12,
            sl1: 19,
            sl2: 1,
            sr1: 5,
            sr2: 1,
            msk: 0xbff7ffbfu128 | (0xfdfffffeu128 << 32) | (0xf7ffef7fu128 << 64) | (
            0xf2f7cbbfu128 << 96),
            pty0: 0x00000001,
            pty1: 0x00000000,
            pty2: 0x00000000,
            pty3: 0x41dfa600,
        }),
        Mexp::M4253 => (Params {
            n: 34,
            pos1: 17,
            sl1: 20,
            sl2: 1,
            sr1: 7,
            sr2: 1,
            msk: 0x9f7bffffu128 | (0x9fffff5fu128 << 32) | (0x3efffffbu128 << 64) | (
            0xfffff7bbu128 << 96),
            pty0: 0xa8000001,
            pty1: 0xaf5390a3,
            pty2: 0xb740b3f8,
            pty3: 0x6c11486d,
        }),
        Mexp::M11213 => (Params {
            n: 88,
            pos1: 68,
            sl1: 14,
            sl2: 3,
            sr1: 7,
            sr2: 3,
            msk: 0xeffff7fbu128 | (0xffffffefu128 << 32) | (0xdfdfbfffu128 << 64) | (
            0x7fffdbfdu128 << 96),
            pty0: 0x00000001,
            pty1: 0x00000000,
            pty2: 0xe8148000,
            pty3: 0xd0c7afa3,
        }),
        Mexp::M19937 => (Params {
            n: 156,
            pos1: 122,
            sl1: 18,
            sl2: 1,
            sr1: 11,
            sr2: 1,
            msk: 0xdfffffefu128 | (0xddfecb7fu128 << 32) | (0xbffaffffu128 << 64) | (
            0xbffffff6u128 << 96),
            pty0: 0x00000001,
            pty1: 0x00000000,
            pty2: 0x00000000,
            pty3: 0x13c9e684,
        }),
        Mexp::M44497 => (Params {
            n: 348,
            pos1: 330,
            sl1: 5,
            sl2: 3,
            sr1: 9,
            sr2: 3,
            msk: 0xeffffffbu128 | (0xdfbebfffu128 << 32) | (0xbfbf7befu128 << 64) | (
            0x9ffd7bffu128 << 96),
            pty0: 0x00000001,
            pty1: 0x00000000,
            pty2: 0xa3ac4000,
            pty3: 0xecc1327a,
        }),
        Mexp::M86243 => (Params {
            n: 674,
            pos1: 366,
            sl1: 6,
            sl2: 7,
            sr1: 19,
            sr2: 1,
            msk: 0xfdbffbffu128 | (0xbff7ff3fu128 << 32) | (0xfd77efffu128 << 64) | (
            0xbf9ff3ffu128 << 96),
            pty0: 0x00000001,
            pty1: 0x00000000,
            pty2: 0x00000000,
            pty3: 0xe9528d85,
        }),
        Mexp::M132049 => (Params {
            n: 1032,
            pos1: 110,
            sl1: 19,
            sl2: 1,
            sr1: 21,
            sr2: 1,
            msk: 0xffffbb5fu128 | (0xfb6ebf95u128 << 32) | (0xfffefffau128 << 64) | (
            0xcff77fffu128 << 96),
            pty0: 0x00000001,
            pty1: 0x00000000,
            pty2: 0xcb520000,
            pty3: 0xc7e91c7d,
        }),
        Mexp::M216091 => (Params {
            n: 1689,
            pos1: 627,
            sl1: 11,
            sl2: 3,
            sr1: 10,
            sr2: 1,
            msk: 0xbff7bff7u128 | (0xbfffffffu128 << 32) | (0xbffffa7fu128 << 64) | (
            0xffddfbfbu128 << 96),
            pty0: 0xf8000001,
            pty1: 0x89e80709,
            pty2: 0x3bd2b64b,
            pty3: 0x0c64b1e4,
        }),
    }
}

/// Every supported parameter set is well formed.
pub proof fn lemma_params_of_wf(m: Mexp)
    ensures
        params_of(m).wf(),
{
    match m {
        Mexp::M607 => assert(params_of(m).wf()),
        Mexp::M1279 => assert(params_of(m).wf()),
        Mexp::M2281 => assert(params_of(m).wf()),
        Mexp::M4253 => assert(params_of(m).wf()),
        Mexp::M11213 => assert(params_of(m).wf()),
        Mexp::M19937 => assert(params_of(m).wf()),
        Mexp::M44497 => assert(params_of(m).wf()),
        Mexp::M86243 => assert(params_of(m).wf()),
        Mexp::M132049 => assert(params_of(m).wf()),
        Mexp::M216091 => assert(params_of(m).wf()),
    }
}

impl Mexp {
    /// The Mersenne exponent as a number.
    pub open spec fn spec_exponent(self) -> int {
        match self {
            Mexp::M607 => 607,
            Mexp::M1279 => 1279,
            Mexp::M2281 => 2281,
            Mexp::M4253 => 4253,
            Mexp::M11213 => 11213,
            Mexp::M19937 => 19937,
            Mexp::M44497 => 44497,
            Mexp::M86243 => 86243,
            Mexp::M132049 => 132049,
            Mexp::M216091 => 216091,
        }
    }

    /// The Mersenne exponent as a number.
    pub fn exponent(self) -> (e: usize)
        ensures
            e == self.spec_exponent(),
    {
        match self {
            Mexp::M607 => 607,
            Mexp::M1279 => 1279,
            Mexp::M2281 => 2281,
            Mexp::M4253 => 4253,
            Mexp::M11213 => 11213,
            Mexp::M19937 => 19937,
            Mexp::M44497 => 44497,
            Mexp::M86243 => 86243,
            Mexp::M132049 => 132049,
            Mexp::M216091 => 216091,
        }
    }

    /// The size tag for a Mersenne exponent; any exponent outside the ten
    /// supported values is rejected.
    pub fn from_exponent(e: usize) -> (r: Option<Mexp>)
        ensures
            r matches Some(m) ==> m.spec_exponent() == e,
            r is None <==> (forall|m: Mexp| m.spec_exponent() != e),
    {
        let r = match e {
            607usize => Some(Mexp::M607),
            1279usize => Some(Mexp::M1279),
            2281usize => Some(Mexp::M2281),
            4253usize => Some(Mexp::M4253),
            11213usize => Some(Mexp::M11213),
            19937usize => Some(Mexp::M19937),
            44497usize => Some(Mexp::M44497),
            86243usize => Some(Mexp::M86243),
            132049usize => Some(Mexp::M132049),
            216091usize => Some(Mexp::M216091),
            _ => None,
        };
        proof {
            if r is None {
                assert forall|m: Mexp| m.spec_exponent() != e by {
                    match m {
                        Mexp::M607 => assert(m.spec_exponent() == 607),
                        Mexp::M1279 => assert(m.spec_exponent() == 1279),
                        Mexp::M2281 => assert(m.spec_exponent() == 2281),
                        Mexp::M4253 => assert(m.spec_exponent() == 4253),
                        Mexp::M11213 => assert(m.spec_exponent() == 11213),
                        Mexp::M19937 => assert(m.spec_exponent() == 19937),
                        Mexp::M44497 => assert(m.spec_exponent() == 44497),
                        Mexp::M86243 => assert(m.spec_exponent() == 86243),
                        Mexp::M132049 => assert(m.spec_exponent() == 132049),
                        Mexp::M216091 => assert(m.spec_exponent() == 216091),
                    }
                }
            }
        }
        r
    }

    /// The parameter set belonging to this exponent.
    pub fn params(self) -> (p: Params)
        ensures
            p == params_of(self),
            p.wf(),
    {
        proof {
            lemma_params_of_wf(self);
        }
        match self {
            Mexp::M607 => (Params {
                n: 5,
                pos1: 2,
                sl1: 15,
                sl2: 3,
                sr1: 13,
                sr2: 3,
                msk: 0xfdff37ffu128 | (0xef7f3f7du128 << 32) | (0xff777b7du128 << 64) | (
                0x7ff7fb2fu128 << 96),
                pty0: 0x00000001,
                pty1: 0x00000000,
                pty2: 0x00000000,
                pty3: 0x5986f054,
            }),
            Mexp::M1279 => (Params {
                n: 10,
                pos1: 7,
                sl1: 14,
                sl2: 3,
                sr1: 5,
                sr2: 1,
                msk: 0xf7fefffdu128 | (0x7fefcfffu128 << 32) | (0xaff3ef3fu128 << 64) | (
                0xb5ffff7fu128 << 96),
                pty0: 0x00000001,
                pty1: 0x00000000,
                pty2: 0x00000000,
                pty3: 0x20000000,
            }),
            Mexp::M2281 => (Params {
                n: 18,
                pos1: 12,
                sl1: 19,
                sl2: 1,
                sr1: 5,
                sr2: 1,
                msk: 0xbff7ffbfu128 | (0xfdfffffeu128 << 32) | (0xf7ffef7fu128 << 64) | (
                0xf2f7cbbfu128 << 96),
                pty0: 0x00000001,
                pty1: 0x00000000,
                pty2: 0x00000000,
                pty3: 0x41dfa600,
            }),
            Mexp::M4253 => (Params {
                n: 34,
                pos1: 17,
                sl1: 20,
                sl2: 1,
                sr1: 7,
                sr2: 1,
                msk: 0x9f7bffffu128 | (0x9fffff5fu128 << 32) | (0x3efffffbu128 << 64) | (
                0xfffff7bbu128 << 96),
                pty0: 0xa8000001,
                pty1: 0xaf5390a3,
                pty2: 0xb740b3f8,
                pty3: 0x6c11486d,
            }),
            Mexp::M11213 => (Params {
                n: 88,
                pos1: 68,
                sl1: 14,
                sl2: 3,
                sr1: 7,
                sr2: 3,
                msk: 0xeffff7fbu128 | (0xffffffefu128 << 32) | (0xdfdfbfffu128 << 64) | (
                0x7fffdbfdu128 << 96),
                pty0: 0x00000001,
                pty1: 0x00000000,
                pty2: 0xe8148000,
                pty3: 0xd0c7afa3,
            }),
            Mexp::M19937 => (Params {
                n: 156,
                pos1: 122,
                sl1: 18,
                sl2: 1,
                sr1: 11,
                sr2: 1,
                msk: 0xdfffffefu128 | (0xddfecb7fu128 << 32) | (0xbffaffffu128 << 64) | (
                0xbffffff6u128 << 96),
                pty0: 0x00000001,
                pty1: 0x00000000,
                pty2: 0x00000000,
                pty3: 0x13c9e684,
            }),
            Mexp::M44497 => (Params {
                n: 348,
                pos1: 330,
                sl1: 5,
                sl2: 3,
                sr1: 9,
                sr2: 3,
                msk: 0xeffffffbu128 | (0xdfbebfffu128 << 32) | (0xbfbf7befu128 << 64) | (
                0x9ffd7bffu128 << 96),
                pty0: 0x00000001,
                pty1: 0x00000000,
                pty2: 0xa3ac4000,
                pty3: 0xecc1327a,
            }),
            Mexp::M86243 => (Params {
                n: 674,
                pos1: 366,
                sl1: 6,
                sl2: 7,
                sr1: 19,
                sr2: 1,
                msk: 0xfdbffbffu128 | (0xbff7ff3fu128 << 32) | (0xfd77efffu128 << 64) | (
                0xbf9ff3ffu128 << 96),
                pty0: 0x00000001,
                pty1: 0x00000000,
                pty2: 0x00000000,
                pty3: 0xe9528d85,
            }),
            Mexp::M132049 => (Params {
                n: 1032,
                pos1: 110,
                sl1: 19,
                sl2: 1,
                sr1: 21,
                sr2: 1,
                msk: 0xffffbb5fu128 | (0xfb6ebf95u128 << 32) | (0xfffefffau128 << 64) | (
                0xcff77fffu128 << 96),
                pty0: 0x00000001,
                pty1: 0x00000000,
                pty2: 0xcb520000,
                pty3: 0xc7e91c7d,
            }),
            Mexp::M216091 => (Params {
                n: 1689,
                pos1: 627,
                sl1: 11,
                sl2: 3,
                sr1: 10,
                sr2: 1,
                msk: 0xbff7bff7u128 | (0xbfffffffu128 << 32) | (0xbffffa7fu128 << 64) | (
                0xffddfbfbu128 << 96),
                pty0: 0xf8000001,
                pty1: 0x89e80709,
                pty2: 0x3bd2b64b,
                pty3: 0x0c64b1e4,
            }),
        }
    }
}

} // verus!
