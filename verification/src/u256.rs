//! Unsigned 256-bit integers as four 64-bit limbs, least significant first.
//!
//! Event fields on the wire are 32-byte big-endian words; this type holds
//! them exactly and supports the two operations the watcher needs:
//! equality and division by ten (for decimal rendering).

use vstd::prelude::*;
use vstd::arithmetic::div_mod::lemma_fundamental_div_mod_converse;

verus! {

/// 2^64, the weight of one limb.
pub open spec fn limb_base() -> nat {
    0x1_0000_0000_0000_0000
}

#[derive(Clone, Copy, PartialEq, Eq, Structural, Debug)]
pub struct U256 {
    pub w0: u64,
    pub w1: u64,
    pub w2: u64,
    pub w3: u64,
}

impl U256 {
    /// The mathematical value: `w0` is the least significant limb.
    pub open spec fn value(self) -> nat {
        (((self.w3 * limb_base() + self.w2) * limb_base() + self.w1) * limb_base()
            + self.w0) as nat
    }

    pub fn zero() -> (r: U256)
        ensures
            r.value() == 0,
    {
        U256 { w0: 0, w1: 0, w2: 0, w3: 0 }
    }

    pub fn from_u64(x: u64) -> (r: U256)
        ensures
            r.value() == x,
    {
        U256 { w0: x, w1: 0, w2: 0, w3: 0 }
    }

    pub fn is_zero(&self) -> (r: bool)
        ensures
            r <==> self.value() == 0,
    {
        proof {
            lemma_value_zero(*self);
        }
        self.w0 == 0 && self.w1 == 0 && self.w2 == 0 && self.w3 == 0
    }

    /// Structural equality coincides with value equality.
    pub fn eq_value(&self, other: &U256) -> (r: bool)
        ensures
            r <==> self.value() == other.value(),
    {
        proof {
            lemma_value_injective(*self, *other);
        }
        self.w0 == other.w0 && self.w1 == other.w1 && self.w2 == other.w2
            && self.w3 == other.w3
    }

    /// Quotient and remainder of division by ten.
    pub fn div10(&self) -> (r: (U256, u8))
        ensures
            r.0.value() * 10 + r.1 == self.value(),
            r.1 < 10,
    {
        let c3: u128 = self.w3 as u128;
        let q3: u64 = (c3 / 10) as u64;
        let r3: u128 = c3 % 10;
        let c2: u128 = r3 * 0x1_0000_0000_0000_0000u128 + self.w2 as u128;
        let q2: u64 = (c2 / 10) as u64;
        let r2: u128 = c2 % 10;
        let c1: u128 = r2 * 0x1_0000_0000_0000_0000u128 + self.w1 as u128;
        let q1: u64 = (c1 / 10) as u64;
        let r1: u128 = c1 % 10;
        let c0: u128 = r1 * 0x1_0000_0000_0000_0000u128 + self.w0 as u128;
        let q0: u64 = (c0 / 10) as u64;
        let r0: u8 = (c0 % 10) as u8;
        let q = U256 { w0: q0, w1: q1, w2: q2, w3: q3 };
        proof {
            let b = limb_base() as int;
            assert(q3 * 10 + (r3 as int) == self.w3) by (nonlinear_arith)
                requires
                    c3 == self.w3,
                    q3 == c3 / 10,
                    r3 == c3 % 10,
            ;
            assert(q2 * 10 + (r2 as int) == (r3 as int) * b + self.w2) by (nonlinear_arith)
                requires
                    c2 == r3 * 0x1_0000_0000_0000_0000u128 + self.w2,
                    b == 0x1_0000_0000_0000_0000,
                    q2 == c2 / 10,
                    r2 == c2 % 10,
            ;
            assert(q1 * 10 + (r1 as int) == (r2 as int) * b + self.w1) by (nonlinear_arith)
                requires
                    c1 == r2 * 0x1_0000_0000_0000_0000u128 + self.w1,
                    b == 0x1_0000_0000_0000_0000,
                    q1 == c1 / 10,
                    r1 == c1 % 10,
            ;
            assert(q0 * 10 + (r0 as int) == (r1 as int) * b + self.w0) by (nonlinear_arith)
                requires
                    c0 == r1 * 0x1_0000_0000_0000_0000u128 + self.w0,
                    b == 0x1_0000_0000_0000_0000,
                    q0 == c0 / 10,
                    r0 == c0 % 10,
            ;
            assert(q.value() * 10 + r0 == self.value()) by (nonlinear_arith)
                requires
                    q3 * 10 + (r3 as int) == self.w3,
                    q2 * 10 + (r2 as int) == (r3 as int) * b + self.w2,
                    q1 * 10 + (r1 as int) == (r2 as int) * b + self.w1,
                    q0 * 10 + (r0 as int) == (r1 as int) * b + self.w0,
                    b == 0x1_0000_0000_0000_0000,
                    q.value() == ((q.w3 * (b as nat) + q.w2) * (b as nat) + q.w1) * (b as nat) + q.w0,
                    q.w0 == q0,
                    q.w1 == q1,
                    q.w2 == q2,
                    q.w3 == q3,
                    self.value() == ((self.w3 * (b as nat) + self.w2) * (b as nat) + self.w1) * (b as nat) + self.w0,
            ;
        }
        (q, r0)
    }
}

/// The value is zero exactly when every limb is zero.
pub proof fn lemma_value_zero(a: U256)
    ensures
        (a.value() == 0) <==> (a.w0 == 0 && a.w1 == 0 && a.w2 == 0 && a.w3 == 0),
{
    assert((a.value() == 0) <==> (a.w0 == 0 && a.w1 == 0 && a.w2 == 0 && a.w3 == 0))
        by (nonlinear_arith)
        requires
            a.value() == ((a.w3 * limb_base() + a.w2) * limb_base() + a.w1) * limb_base() + a.w0,
            limb_base() == 0x1_0000_0000_0000_0000,
            a.w0 < limb_base(),
            a.w1 < limb_base(),
            a.w2 < limb_base(),
            a.w3 < limb_base(),
    ;
}

/// Equal values have equal limbs.
pub proof fn lemma_value_injective(a: U256, b: U256)
    ensures
        a.value() == b.value() ==> a == b,
{
    if a.value() == b.value() {
        let base = limb_base() as int;
        let ha = (a.w3 * limb_base() + a.w2) * limb_base() + a.w1;
        let hb = (b.w3 * limb_base() + b.w2) * limb_base() + b.w1;
        lemma_fundamental_div_mod_converse(a.value() as int, base, ha as int, a.w0 as int);
        lemma_fundamental_div_mod_converse(b.value() as int, base, hb as int, b.w0 as int);
        assert(a.w0 == b.w0);
        assert(ha == hb);
        let ma = a.w3 * limb_base() + a.w2;
        let mb = b.w3 * limb_base() + b.w2;
        lemma_fundamental_div_mod_converse(ha as int, base, ma as int, a.w1 as int);
        lemma_fundamental_div_mod_converse(hb as int, base, mb as int, b.w1 as int);
        assert(a.w1 == b.w1);
        assert(ma == mb);
        lemma_fundamental_div_mod_converse(ma as int, base, a.w3 as int, a.w2 as int);
        lemma_fundamental_div_mod_converse(mb as int, base, b.w3 as int, b.w2 as int);
        assert(a.w2 == b.w2);
        assert(a.w3 == b.w3);
    }
}

} // verus!
