use crate::common::errors::ErrorCode;
use vstd::prelude::*;

verus! {

/// 2^64, the weight of the second limb.
pub open spec fn radix() -> nat {
    0x1_0000_0000_0000_0000
}

/// 2^128, the weight of the third limb.
pub open spec fn radix2() -> nat {
    0x1_0000_0000_0000_0000_0000_0000_0000_0000nat
}

/// 2^192, the weight of the fourth limb.
pub open spec fn radix3() -> nat {
    0x1_0000_0000_0000_0000_0000_0000_0000_0000_0000_0000_0000_0000nat
}

/// 2^256, one more than the largest value a [`U256`] holds.
pub open spec fn modulus() -> nat {
    0x1_0000_0000_0000_0000_0000_0000_0000_0000_0000_0000_0000_0000_0000_0000_0000_0000nat
}

/// The number that four limbs stand for, least significant first.
pub open spec fn limbs_value(l0: u64, l1: u64, l2: u64, l3: u64) -> nat {
    l0 as nat + l1 as nat * radix() + l2 as nat * radix2() + l3 as nat * radix3()
}

/// 256-bit unsigned integer: four 64-bit limbs, least significant first.
#[derive(Clone, Copy, Debug)]
pub struct U256(pub [u64; 4]);

impl View for U256 {
    type V = nat;

    open spec fn view(&self) -> nat {
        limbs_value(self.0[0], self.0[1], self.0[2], self.0[3])
    }
}

impl PartialEq for U256 {
    fn eq(&self, other: &Self) -> (r: bool) {
        self.0[0] == other.0[0] && self.0[1] == other.0[1] && self.0[2] == other.0[2] && self.0[3]
            == other.0[3]
    }
}

impl Eq for U256 {

}

impl vstd::std_specs::cmp::PartialEqSpecImpl for U256 {
    open spec fn obeys_eq_spec() -> bool {
        true
    }

    open spec fn eq_spec(&self, other: &Self) -> bool {
        self@ == other@
    }
}

/// Sum of two limbs and a carry, as a limb and the carry out.
#[verifier::rlimit(40)]
fn adc(a: u64, b: u64, carry: u64) -> (r: (u64, u64))
    requires
        carry <= 1,
    ensures
        r.0 + r.1 * radix() == a + b + carry,
        r.1 <= 1,
{
    let t: u128 = a as u128 + b as u128 + carry as u128;
    ((t % 0x1_0000_0000_0000_0000u128) as u64, (t / 0x1_0000_0000_0000_0000u128) as u64)
}

/// Difference of two limbs and a borrow, as a limb and the borrow out.
#[verifier::rlimit(40)]
fn sbb(a: u64, b: u64, borrow: u64) -> (r: (u64, u64))
    requires
        borrow <= 1,
    ensures
        r.0 - r.1 * radix() == a - b - borrow,
        r.1 <= 1,
{
    let t: u128 = a as u128 + 0x1_0000_0000_0000_0000u128 - b as u128 - borrow as u128;
    ((t % 0x1_0000_0000_0000_0000u128) as u64, 1 - (t / 0x1_0000_0000_0000_0000u128) as u64)
}

/// Product of two limbs plus a carry, as a low and a high limb.
#[verifier::rlimit(40)]
fn mac(a: u64, m: u64, carry: u64) -> (r: (u64, u64))
    ensures
        r.0 + r.1 * radix() == a * m + carry,
{
    assert(a * m <= 0xFFFF_FFFF_FFFF_FFFF * 0xFFFF_FFFF_FFFF_FFFF) by (nonlinear_arith)
        requires
            a <= 0xFFFF_FFFF_FFFF_FFFF,
            m <= 0xFFFF_FFFF_FFFF_FFFF,
    ;
    let t: u128 = (a as u128) * (m as u128) + carry as u128;
    ((t % 0x1_0000_0000_0000_0000u128) as u64, (t / 0x1_0000_0000_0000_0000u128) as u64)
}

/// The number whose base-256 digits, least significant first, are the eight
/// bytes of `s` from index `at` on.
pub open spec fn le_u64(s: Seq<u8>, at: int) -> nat {
    s[at] as nat + s[at + 1] as nat * 0x100 + s[at + 2] as nat * 0x1_0000 + s[at + 3] as nat
        * 0x100_0000 + s[at + 4] as nat * 0x1_0000_0000 + s[at + 5] as nat * 0x100_0000_0000 + s[at
        + 6] as nat * 0x1_0000_0000_0000 + s[at + 7] as nat * 0x100_0000_0000_0000
}

/// The number whose base-256 digits, least significant first, are the 32
/// bytes of `s`.
pub open spec fn le_value(s: Seq<u8>) -> nat {
    le_u64(s, 0) + le_u64(s, 8) * radix() + le_u64(s, 16) * radix2() + le_u64(s, 24) * radix3()
}

#[verifier::rlimit(40)]
fn limb_from_le(bytes: &[u8; 32], at: usize) -> (r: u64)
    requires
        at + 8 <= 32,
    ensures
        r == le_u64(bytes@, at as int),
{
    bytes[at] as u64 + (bytes[at + 1] as u64) * 0x100 + (bytes[at + 2] as u64) * 0x1_0000 + (
    bytes[at + 3] as u64) * 0x100_0000 + (bytes[at + 4] as u64) * 0x1_0000_0000 + (bytes[at
        + 5] as u64) * 0x100_0000_0000 + (bytes[at + 6] as u64) * 0x1_0000_0000_0000 + (bytes[at
        + 7] as u64) * 0x100_0000_0000_0000
}

#[verifier::rlimit(40)]
fn limb_to_le(x: u64) -> (r: [u8; 8])
    ensures
        le_u64(r@, 0) == x,
{
    let x1 = x / 0x100;
    let x2 = x1 / 0x100;
    let x3 = x2 / 0x100;
    let x4 = x3 / 0x100;
    let x5 = x4 / 0x100;
    let x6 = x5 / 0x100;
    let x7 = x6 / 0x100;
    [
        (x % 0x100) as u8,
        (x1 % 0x100) as u8,
        (x2 % 0x100) as u8,
        (x3 % 0x100) as u8,
        (x4 % 0x100) as u8,
        (x5 % 0x100) as u8,
        (x6 % 0x100) as u8,
        x7 as u8,
    ]
}

impl U256 {
    /// The largest value.
    pub open spec fn spec_max() -> nat {
        (modulus() - 1) as nat
    }

    /// Every value is below 2^256.
    pub proof fn lemma_bounded(&self)
        ensures
            self@ < modulus(),
    {
    }

    /// Two values with the same number have the same limbs.
    #[verifier::rlimit(40)]
    pub proof fn lemma_view_injective(a: U256, b: U256)
        requires
            a@ == b@,
        ensures
            a == b,
    {
        let w: int = 0x1_0000_0000_0000_0000;
        let (a0, a1, a2, a3) = (a.0[0] as int, a.0[1] as int, a.0[2] as int, a.0[3] as int);
        let (b0, b1, b2, b3) = (b.0[0] as int, b.0[1] as int, b.0[2] as int, b.0[3] as int);
        let qa = a1 + a2 * w + a3 * (w * w);
        let qb = b1 + b2 * w + b3 * (w * w);
        assert(a@ == qa * w + a0 && b@ == qb * w + b0);
        vstd::arithmetic::div_mod::lemma_fundamental_div_mod_converse(a@ as int, w, qa, a0);
        vstd::arithmetic::div_mod::lemma_fundamental_div_mod_converse(b@ as int, w, qb, b0);
        let ra = a2 + a3 * w;
        let rb = b2 + b3 * w;
        assert(qa == ra * w + a1 && qb == rb * w + b1);
        vstd::arithmetic::div_mod::lemma_fundamental_div_mod_converse(qa, w, ra, a1);
        vstd::arithmetic::div_mod::lemma_fundamental_div_mod_converse(qb, w, rb, b1);
        vstd::arithmetic::div_mod::lemma_fundamental_div_mod_converse(ra, w, a3, a2);
        vstd::arithmetic::div_mod::lemma_fundamental_div_mod_converse(rb, w, b3, b2);
        assert(a.0 =~= b.0);
    }

    pub fn zero() -> (r: U256)
        ensures
            r@ == 0,
    {
        U256([0, 0, 0, 0])
    }

    pub fn one() -> (r: U256)
        ensures
            r@ == 1,
    {
        U256([1, 0, 0, 0])
    }

    pub fn from_u64(v: u64) -> (r: U256)
        ensures
            r@ == v,
    {
        U256([v, 0, 0, 0])
    }

    #[verifier::rlimit(40)]
    pub fn from_u128(v: u128) -> (r: U256)
        ensures
            r@ == v,
    {
        U256(
            [
                (v % 0x1_0000_0000_0000_0000u128) as u64,
                (v / 0x1_0000_0000_0000_0000u128) as u64,
                0,
                0,
            ],
        )
    }

    /// The value of a signed number, which has to be zero or more.
    pub fn try_from_i128(v: i128) -> (r: Result<U256, ErrorCode>)
        ensures
            v >= 0 ==> r is Ok && r.unwrap()@ == v,
            v < 0 ==> r == Err::<U256, ErrorCode>(ErrorCode::BnConversionError),
    {
        if v < 0 {
            Err(ErrorCode::BnConversionError)
        } else {
            Ok(U256::from_u128(v as u128))
        }
    }

    pub fn is_zero(&self) -> (r: bool)
        ensures
            r == (self@ == 0),
    {
        self.0[0] == 0 && self.0[1] == 0 && self.0[2] == 0 && self.0[3] == 0
    }

    #[verifier::rlimit(40)]
    pub fn lt(&self, other: &U256) -> (r: bool)
        ensures
            r == (self@ < other@),
    {
        if self.0[3] != other.0[3] {
            self.0[3] < other.0[3]
        } else if self.0[2] != other.0[2] {
            self.0[2] < other.0[2]
        } else if self.0[1] != other.0[1] {
            self.0[1] < other.0[1]
        } else {
            self.0[0] < other.0[0]
        }
    }

    pub fn le(&self, other: &U256) -> (r: bool)
        ensures
            r == (self@ <= other@),
    {
        !other.lt(self)
    }

    pub fn gt(&self, other: &U256) -> (r: bool)
        ensures
            r == (self@ > other@),
    {
        other.lt(self)
    }

    pub fn ge(&self, other: &U256) -> (r: bool)
        ensures
            r == (self@ >= other@),
    {
        !self.lt(other)
    }

    /// Sum modulo 2^256, and whether it went over.
    #[verifier::rlimit(40)]
    pub fn overflowing_add(&self, other: &U256) -> (r: (U256, bool))
        ensures
            self@ + other@ == r.0@ + (if r.1 {
                modulus()
            } else {
                0
            }),
    {
        let (s0, c0) = adc(self.0[0], other.0[0], 0);
        let (s1, c1) = adc(self.0[1], other.0[1], c0);
        let (s2, c2) = adc(self.0[2], other.0[2], c1);
        let (s3, c3) = adc(self.0[3], other.0[3], c2);
        (U256([s0, s1, s2, s3]), c3 != 0)
    }

    /// Sum, where it fits in 256 bits.
    pub fn checked_add(&self, other: &U256) -> (r: Option<U256>)
        ensures
            match r {
                Some(v) => v@ == self@ + other@,
                None => self@ + other@ >= modulus(),
            },
    {
        let (sum, over) = self.overflowing_add(other);
        if over {
            None
        } else {
            Some(sum)
        }
    }

    /// Difference modulo 2^256, and whether it went below zero.
    #[verifier::rlimit(40)]
    pub fn overflowing_sub(&self, other: &U256) -> (r: (U256, bool))
        ensures
            self@ - other@ == r.0@ - (if r.1 {
                modulus()
            } else {
                0
            }),
    {
        let (d0, b0) = sbb(self.0[0], other.0[0], 0);
        let (d1, b1) = sbb(self.0[1], other.0[1], b0);
        let (d2, b2) = sbb(self.0[2], other.0[2], b1);
        let (d3, b3) = sbb(self.0[3], other.0[3], b2);
        (U256([d0, d1, d2, d3]), b3 != 0)
    }

    /// Difference, where `other` is not the larger one.
    pub fn checked_sub(&self, other: &U256) -> (r: Option<U256>)
        ensures
            match r {
                Some(v) => v@ == self@ - other@,
                None => self@ < other@,
            },
    {
        let (difference, under) = self.overflowing_sub(other);
        if under {
            None
        } else {
            Some(difference)
        }
    }

    /// Product with one limb, as the low 256 bits and the limb above them.
    #[verifier::rlimit(40)]
    fn mul_u64(&self, m: u64) -> (r: (U256, u64))
        ensures
            self@ * m == r.0@ + r.1 * modulus(),
    {
        let (l0, c0) = mac(self.0[0], m, 0);
        let (l1, c1) = mac(self.0[1], m, c0);
        let (l2, c2) = mac(self.0[2], m, c1);
        let (l3, c3) = mac(self.0[3], m, c2);
        proof {
            let a0 = self.0[0] as int;
            let a1 = self.0[1] as int;
            let a2 = self.0[2] as int;
            let a3 = self.0[3] as int;
            let mm = m as int;
            let w1 = radix() as int;
            let w2 = radix2() as int;
            let w3 = radix3() as int;
            let t1 = a1 * w1;
            let t2 = a2 * w2;
            let t3 = a3 * w3;
            assert((a0 + t1 + t2 + t3) * mm == a0 * mm + t1 * mm + t2 * mm + t3 * mm)
                by (nonlinear_arith);
            assert(t1 * mm == (a1 * mm) * w1) by (nonlinear_arith)
                requires
                    t1 == a1 * w1,
            ;
            assert(t2 * mm == (a2 * mm) * w2) by (nonlinear_arith)
                requires
                    t2 == a2 * w2,
            ;
            assert(t3 * mm == (a3 * mm) * w3) by (nonlinear_arith)
                requires
                    t3 == a3 * w3,
            ;
        }
        (U256([l0, l1, l2, l3]), c3)
    }

    /// `acc * 2^64 + self * digit`, where it fits in 256 bits.
    #[verifier::rlimit(40)]
    fn horner_step(&self, acc: &U256, digit: u64) -> (r: Option<U256>)
        ensures
            match r {
                Some(v) => v@ == acc@ * radix() + self@ * digit,
                None => acc@ * radix() + self@ * digit >= modulus(),
            },
    {
        let (row, high) = self.mul_u64(digit);
        if acc.0[3] != 0 || high != 0 {
            return None;
        }
        let shifted = U256([0, acc.0[0], acc.0[1], acc.0[2]]);
        shifted.checked_add(&row)
    }

    /// Product, where it fits in 256 bits.
    #[verifier::rlimit(40)]
    pub fn checked_mul(&self, other: &U256) -> (r: Option<U256>)
        ensures
            match r {
                Some(v) => v@ == self@ * other@,
                None => self@ * other@ >= modulus(),
            },
    {
        let ghost a = self@ as int;
        let ghost b0 = other.0[0] as int;
        let ghost b1 = other.0[1] as int;
        let ghost b2 = other.0[2] as int;
        let ghost b3 = other.0[3] as int;
        let ghost w = radix() as int;
        proof {
            let row0 = a * b0;
            let row1 = a * b1;
            let row2 = a * b2;
            let row3 = a * b3;
            let w2 = radix2() as int;
            let w3 = radix3() as int;
            let u1 = b1 * w;
            let u2 = b2 * w2;
            let u3 = b3 * w3;
            assert(a * (b0 + u1 + u2 + u3) == a * b0 + a * u1 + a * u2 + a * u3)
                by (nonlinear_arith);
            assert(a * u1 == row1 * w) by (nonlinear_arith)
                requires
                    u1 == b1 * w,
                    row1 == a * b1,
            ;
            assert(a * u2 == row2 * w2) by (nonlinear_arith)
                requires
                    u2 == b2 * w2,
                    row2 == a * b2,
            ;
            assert(a * u3 == row3 * w3) by (nonlinear_arith)
                requires
                    u3 == b3 * w3,
                    row3 == a * b3,
            ;
            assert((row3 * w + row2) * w == row3 * w2 + row2 * w) by (nonlinear_arith)
                requires
                    w == 0x1_0000_0000_0000_0000,
                    w2 == 0x1_0000_0000_0000_0000_0000_0000_0000_0000,
            ;
            assert(((row3 * w + row2) * w + row1) * w == row3 * w3 + row2 * w2 + row1 * w)
                by (nonlinear_arith)
                requires
                    (row3 * w + row2) * w == row3 * w2 + row2 * w,
                    w == 0x1_0000_0000_0000_0000,
                    w2 == 0x1_0000_0000_0000_0000_0000_0000_0000_0000,
                    w3 == 0x1_0000_0000_0000_0000_0000_0000_0000_0000_0000_0000_0000_0000,
            ;
            assert(a * other@ == ((a * b3 * w + a * b2) * w + a * b1) * w + a * b0);
            assert(a * b3 >= 0 && a * b2 >= 0 && a * b1 >= 0 && a * b0 >= 0) by (nonlinear_arith)
                requires
                    a >= 0,
                    b0 >= 0,
                    b1 >= 0,
                    b2 >= 0,
                    b3 >= 0,
            ;
        }
        let zero = U256::zero();
        let acc3 = match self.horner_step(&zero, other.0[3]) {
            Some(v) => v,
            None => {
                proof {
                    let x = a * b3;
                    assert(((x * w + a * b2) * w + a * b1) * w + a * b0 >= x) by (nonlinear_arith)
                        requires
                            x >= 0,
                            w >= 1,
                            a * b2 >= 0,
                            a * b1 >= 0,
                            a * b0 >= 0,
                    ;
                }
                return None;
            },
        };
        let acc2 = match self.horner_step(&acc3, other.0[2]) {
            Some(v) => v,
            None => {
                proof {
                    let x = a * b3 * w + a * b2;
                    assert((x * w + a * b1) * w + a * b0 >= x) by (nonlinear_arith)
                        requires
                            x >= 0,
                            w >= 1,
                            a * b1 >= 0,
                            a * b0 >= 0,
                    ;
                }
                return None;
            },
        };
        let acc1 = match self.horner_step(&acc2, other.0[1]) {
            Some(v) => v,
            None => {
                proof {
                    let x = (a * b3 * w + a * b2) * w + a * b1;
                    assert(x * w + a * b0 >= x) by (nonlinear_arith)
                        requires
                            x >= 0,
                            w >= 1,
                            a * b0 >= 0,
                    ;
                }
                return None;
            },
        };
        self.horner_step(&acc1, other.0[0])
    }

    /// Half of the value, rounded down.
    #[verifier::rlimit(40)]
    fn half(&self) -> (r: U256)
        ensures
            r@ == self@ / 2,
    {
        let top: u64 = 0x8000_0000_0000_0000;
        let n3 = self.0[3] / 2;
        let n2 = self.0[2] / 2 + (self.0[3] % 2) * top;
        let n1 = self.0[1] / 2 + (self.0[2] % 2) * top;
        let n0 = self.0[0] / 2 + (self.0[1] % 2) * top;
        let r = U256([n0, n1, n2, n3]);
        assert(2 * r@ + self.0[0] % 2 == self@);
        r
    }

    fn is_one(&self) -> (r: bool)
        ensures
            r == (self@ == 1),
    {
        self.0[0] == 1 && self.0[1] == 0 && self.0[2] == 0 && self.0[3] == 0
    }

    /// Quotient rounded down, where the divisor is not zero.
    ///
    /// The divisor is doubled while it still fits under `self`, then taken
    /// out of the remainder at each scale on the way back down.
    #[verifier::rlimit(40)]
    pub fn checked_div(&self, other: &U256) -> (r: Option<U256>)
        ensures
            match r {
                Some(v) => other@ != 0 && v@ == self@ / other@,
                None => other@ == 0,
            },
    {
        if other.is_zero() {
            return None;
        }
        if self.lt(other) {
            proof {
                vstd::arithmetic::div_mod::lemma_fundamental_div_mod_converse(
                    self@ as int,
                    other@ as int,
                    0,
                    self@ as int,
                );
            }
            return Some(U256::zero());
        }
        let mut scaled = *other;
        let mut unit = U256::one();
        let ghost mut k: nat = 0;
        let mut room = self.overflowing_sub(&scaled).0;
        proof {
            vstd::arithmetic::power2::lemma2_to64();
            assert(other@ * 1 == other@) by (nonlinear_arith);
        }
        while room.ge(&scaled)
            invariant
                other@ > 0,
                scaled@ == other@ * unit@,
                unit@ == vstd::arithmetic::power2::pow2(k),
                scaled@ <= self@,
                room@ == self@ - scaled@,
            decreases self@ - scaled@,
        {
            proof {
                let d = other@ as int;
                let u = unit@ as int;
                assert(u <= d * u) by (nonlinear_arith)
                    requires
                        d >= 1,
                        u >= 0,
                ;
                assert(d * (u + u) == d * u + d * u) by (nonlinear_arith);
                vstd::arithmetic::power2::lemma_pow2_unfold(k + 1);
                vstd::arithmetic::power2::lemma_pow2_pos(k);
                assert(d * u > 0) by (nonlinear_arith)
                    requires
                        d >= 1,
                        u >= 1,
                ;
            }
            scaled = scaled.overflowing_add(&scaled).0;
            unit = unit.overflowing_add(&unit).0;
            proof {
                k = k + 1;
            }
            room = self.overflowing_sub(&scaled).0;
        }
        let mut quotient = unit;
        let mut rest = room;
        while !unit.is_one()
            invariant
                other@ > 0,
                self@ == quotient@ * other@ + rest@,
                scaled@ == other@ * unit@,
                unit@ == vstd::arithmetic::power2::pow2(k),
                rest@ < scaled@,
            decreases k,
        {
            proof {
                vstd::arithmetic::power2::lemma2_to64();
                if k == 0 {
                    assert(unit@ == 1);
                }
                vstd::arithmetic::power2::lemma_pow2_unfold(k);
                let d = other@ as int;
                let h = vstd::arithmetic::power2::pow2((k - 1) as nat) as int;
                assert(d * (2 * h) == 2 * (d * h)) by (nonlinear_arith);
                let q = quotient@ as int;
                assert((q + h) * d == q * d + d * h) by (nonlinear_arith);
                assert(q + h <= (q + h) * d) by (nonlinear_arith)
                    requires
                        d >= 1,
                        q + h >= 0,
                ;
            }
            scaled = scaled.half();
            unit = unit.half();
            proof {
                k = (k - 1) as nat;
            }
            if rest.ge(&scaled) {
                rest = rest.overflowing_sub(&scaled).0;
                quotient = quotient.overflowing_add(&unit).0;
            }
        }
        proof {
            assert(other@ * 1 == other@) by (nonlinear_arith);
            vstd::arithmetic::div_mod::lemma_fundamental_div_mod_converse(
                self@ as int,
                other@ as int,
                quotient@ as int,
                rest@ as int,
            );
        }
        Some(quotient)
    }

    /// The value, where it fits in 64 bits.
    pub fn to_u64(self) -> (r: Option<u64>)
        ensures
            match r {
                Some(v) => v == self@,
                None => self@ > u64::MAX,
            },
    {
        match self.try_to_u64() {
            Ok(v) => Some(v),
            Err(_) => None,
        }
    }

    /// The value, where it fits in 64 bits.
    pub fn try_to_u64(self) -> (r: Result<u64, ErrorCode>)
        ensures
            match r {
                Ok(v) => v == self@,
                Err(e) => e == ErrorCode::BnConversionError && self@ > u64::MAX,
            },
    {
        if self.0[1] == 0 && self.0[2] == 0 && self.0[3] == 0 {
            Ok(self.0[0])
        } else {
            Err(ErrorCode::BnConversionError)
        }
    }

    /// The value, where it fits in 128 bits.
    pub fn to_u128(self) -> (r: Option<u128>)
        ensures
            match r {
                Some(v) => v == self@,
                None => self@ > u128::MAX,
            },
    {
        match self.try_to_u128() {
            Ok(v) => Some(v),
            Err(_) => None,
        }
    }

    /// The value, where it fits in 128 bits.
    #[verifier::rlimit(40)]
    pub fn try_to_u128(self) -> (r: Result<u128, ErrorCode>)
        ensures
            match r {
                Ok(v) => v == self@,
                Err(e) => e == ErrorCode::BnConversionError && self@ > u128::MAX,
            },
    {
        if self.0[2] == 0 && self.0[3] == 0 {
            Ok(self.0[0] as u128 + (self.0[1] as u128) * 0x1_0000_0000_0000_0000u128)
        } else {
            Err(ErrorCode::BnConversionError)
        }
    }

    /// The value whose little-endian bytes are `bytes`.
    #[verifier::rlimit(40)]
    pub fn from_le_bytes(bytes: [u8; 32]) -> (r: U256)
        ensures
            r@ == le_value(bytes@),
    {
        U256(
            [
                limb_from_le(&bytes, 0),
                limb_from_le(&bytes, 8),
                limb_from_le(&bytes, 16),
                limb_from_le(&bytes, 24),
            ],
        )
    }

    /// The 32 little-endian bytes of the value.
    #[verifier::rlimit(40)]
    pub fn to_le_bytes(self) -> (r: [u8; 32])
        ensures
            le_value(r@) == self@,
    {
        let a = limb_to_le(self.0[0]);
        let b = limb_to_le(self.0[1]);
        let c = limb_to_le(self.0[2]);
        let d = limb_to_le(self.0[3]);
        let out = [
            a[0],
            a[1],
            a[2],
            a[3],
            a[4],
            a[5],
            a[6],
            a[7],
            b[0],
            b[1],
            b[2],
            b[3],
            b[4],
            b[5],
            b[6],
            b[7],
            c[0],
            c[1],
            c[2],
            c[3],
            c[4],
            c[5],
            c[6],
            c[7],
            d[0],
            d[1],
            d[2],
            d[3],
            d[4],
            d[5],
            d[6],
            d[7],
        ];
        assert(le_u64(out@, 0) == le_u64(a@, 0));
        assert(le_u64(out@, 8) == le_u64(b@, 0));
        assert(le_u64(out@, 16) == le_u64(c@, 0));
        assert(le_u64(out@, 24) == le_u64(d@, 0));
        out
    }

    /// Writing a value out and reading it back gives the value.
    pub proof fn lemma_le_bytes_round_trip(x: U256, bytes: [u8; 32], back: U256)
        requires
            le_value(bytes@) == x@,
            back@ == le_value(bytes@),
        ensures
            back == x,
    {
        U256::lemma_view_injective(back, x);
    }
}

impl From<u64> for U256 {
    fn from(v: u64) -> (r: U256) {
        U256([v, 0, 0, 0])
    }
}

impl vstd::std_specs::convert::FromSpecImpl<u64> for U256 {
    open spec fn obeys_from_spec() -> bool {
        true
    }

    open spec fn from_spec(v: u64) -> U256 {
        U256([v, 0, 0, 0])
    }
}

impl From<u128> for U256 {
    fn from(v: u128) -> (r: U256) {
        U256(
            [
                (v % 0x1_0000_0000_0000_0000u128) as u64,
                (v / 0x1_0000_0000_0000_0000u128) as u64,
                0,
                0,
            ],
        )
    }
}

impl vstd::std_specs::convert::FromSpecImpl<u128> for U256 {
    open spec fn obeys_from_spec() -> bool {
        true
    }

    open spec fn from_spec(v: u128) -> U256 {
        U256(
            [
                (v % 0x1_0000_0000_0000_0000u128) as u64,
                (v / 0x1_0000_0000_0000_0000u128) as u64,
                0,
                0,
            ],
        )
    }
}

} // verus!
