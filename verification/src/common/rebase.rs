use crate::common::errors::ErrorCode;
use vstd::prelude::*;

verus! {

/// Quotient of `n` by `d`, rounded up.
pub open spec fn div_ceil(n: nat, d: nat) -> nat {
    if n % d == 0 {
        n / d
    } else {
        n / d + 1
    }
}

/// The conversion behind both directions of a [`Rebase`]: `amount` units of
/// the side whose total is `from_total`, expressed in units of the side whose
/// total is `to_total`.
///
/// An empty source side converts one to one. Otherwise the result is
/// `to_total * amount / from_total`, rounded as asked; the product has to fit
/// in 128 bits and the result in 64 bits. Against an empty target side every
/// amount is worth nothing.
pub open spec fn convert(to_total: nat, from_total: nat, amount: nat, round_up: bool) -> Result<
    u64,
    ErrorCode,
> {
    if from_total == 0 {
        Ok(amount as u64)
    } else if to_total * amount > u128::MAX {
        Err(ErrorCode::WrongIntegerMultiplication)
    } else {
        let q = if round_up {
            div_ceil(to_total * amount, from_total)
        } else {
            (to_total * amount) / from_total
        };
        if q > u64::MAX {
            Err(ErrorCode::TryIntoConversionError)
        } else {
            Ok(q as u64)
        }
    }
}

/// Rounding the quotient `q = p / from` up is the same as testing whether the
/// inverse conversion of `q` falls short of `amount`.
#[verifier::rlimit(40)]
proof fn lemma_inverse_undershoots(to: nat, from: nat, amount: nat)
    requires
        to > 0,
        from > 0,
    ensures
        (((to * amount) / from) * from) <= to * amount,
        ((((to * amount) / from) * from) / to < amount) <==> ((to * amount) % from != 0),
        from >= 2 ==> 2 * ((to * amount) / from) <= to * amount,
{
    let p = to * amount;
    let q = p / from;
    assert(p == q * from + p % from && 0 <= p % from < from) by (nonlinear_arith)
        requires
            from > 0,
            q == p / from,
    ;
    if p % from == 0 {
        assert((to * amount) / to == amount) by (nonlinear_arith)
            requires
                to > 0,
        ;
    } else {
        assert(amount > 0) by (nonlinear_arith)
            requires
                to * amount > 0,
        ;
        assert((q * from) / to < amount) by (nonlinear_arith)
            requires
                q * from < to * amount,
                to > 0,
                amount > 0,
        ;
    }
    if from >= 2 {
        assert(2 * q <= q * from) by (nonlinear_arith)
            requires
                from >= 2,
                q >= 0,
        ;
    }
}

#[verifier::rlimit(40)]
fn convert_amount(to_total: u128, from_total: u128, amount: u64, round_up: bool) -> (r: Result<
    u64,
    ErrorCode,
>)
    ensures
        r == convert(to_total as nat, from_total as nat, amount as nat, round_up),
{
    if from_total == 0 {
        return Ok(amount);
    }
    let product = match to_total.checked_mul(amount as u128) {
        Some(p) => p,
        None => {
            return Err(ErrorCode::WrongIntegerMultiplication);
        },
    };
    if to_total == 0 {
        assert(product == 0) by (nonlinear_arith)
            requires
                product == to_total * amount,
                to_total == 0,
        ;
        return Ok(0);
    }
    let mut quotient: u128 = product / from_total;
    proof {
        lemma_inverse_undershoots(to_total as nat, from_total as nat, amount as nat);
    }
    let inverse: u128 = (quotient * from_total) / to_total;
    if round_up && inverse < amount as u128 {
        quotient = quotient + 1;
    }
    if quotient > u64::MAX as u128 {
        Err(ErrorCode::TryIntoConversionError)
    } else {
        Ok(quotient as u64)
    }
}

/// The ledger of one pooled asset: `base` counts the shares handed out,
/// `elastic` the native amount they stand for.
#[derive(Clone, Copy, Debug, PartialEq, Eq, Structural)]
pub struct Rebase {
    pub base: u128,
    pub elastic: u128,
}

impl Default for Rebase {
    fn default() -> (r: Self)
        ensures
            r == (Rebase { base: 0, elastic: 0 }),
    {
        Rebase { base: 0, elastic: 0 }
    }
}

impl Rebase {
    /// Bytes one ledger takes when stored.
    pub const SIZE: usize = 32;

    /// What [`Rebase::to_base`] returns.
    pub open spec fn spec_to_base(&self, elastic: u64, round_up: bool) -> Result<u64, ErrorCode> {
        convert(self.base as nat, self.elastic as nat, elastic as nat, round_up)
    }

    /// What [`Rebase::to_elastic`] returns.
    pub open spec fn spec_to_elastic(&self, base: u64, round_up: bool) -> Result<u64, ErrorCode> {
        convert(self.elastic as nat, self.base as nat, base as nat, round_up)
    }

    /// The ledger with `elastic` and `base` added, where both sums fit.
    pub open spec fn spec_add_e_b(&self, elastic: u64, base: u64) -> Result<Rebase, ErrorCode> {
        if self.elastic + elastic > u128::MAX || self.base + base > u128::MAX {
            Err(ErrorCode::WrongIntegerAddition)
        } else {
            Ok(Rebase { base: (self.base + base) as u128, elastic: (self.elastic + elastic) as u128 })
        }
    }

    /// The ledger with `elastic` and `base` taken out, where it holds both.
    pub open spec fn spec_sub_e_b(&self, elastic: u64, base: u64) -> Result<Rebase, ErrorCode> {
        if self.elastic < elastic || self.base < base {
            Err(ErrorCode::WrongIntegerSubtraction)
        } else {
            Ok(Rebase { base: (self.base - base) as u128, elastic: (self.elastic - elastic) as u128 })
        }
    }

    /// The ledger and amount that [`Rebase::add_e`] produces.
    pub open spec fn spec_add_e(&self, elastic: u64, round_up: bool) -> Result<
        (Rebase, u64),
        ErrorCode,
    > {
        match self.spec_to_base(elastic, round_up) {
            Err(e) => Err(e),
            Ok(base) => match self.spec_add_e_b(elastic, base) {
                Err(e) => Err(e),
                Ok(total) => Ok((total, elastic)),
            },
        }
    }

    /// The ledger and amount that [`Rebase::sub_e`] produces.
    pub open spec fn spec_sub_e(&self, base: u64, round_up: bool) -> Result<
        (Rebase, u64),
        ErrorCode,
    > {
        match self.spec_to_elastic(base, round_up) {
            Err(e) => Err(e),
            Ok(elastic) => match self.spec_sub_e_b(elastic, base) {
                Err(e) => Err(e),
                Ok(total) => Ok((total, elastic)),
            },
        }
    }

    /// Shares that `elastic` units of the native amount are worth.
    pub fn to_base(&self, elastic: u64, round_up: bool) -> (r: Result<u64, ErrorCode>)
        ensures
            r == self.spec_to_base(elastic, round_up),
    {
        convert_amount(self.base, self.elastic, elastic, round_up)
    }

    /// Native amount that `base` shares are worth.
    pub fn to_elastic(&self, base: u64, round_up: bool) -> (r: Result<u64, ErrorCode>)
        ensures
            r == self.spec_to_elastic(base, round_up),
    {
        convert_amount(self.elastic, self.base, base, round_up)
    }

    /// Adds `elastic` and the shares it is worth. Returns the new ledger and
    /// the amount added; on an error the ledger is left as it was.
    pub fn add_e(&mut self, elastic: u64, round_up: bool) -> (r: Result<(Rebase, u64), ErrorCode>)
        ensures
            r == old(self).spec_add_e(elastic, round_up),
            match r {
                Ok((total, _)) => *final(self) == total,
                Err(_) => *final(self) == *old(self),
            },
    {
        let base = match self.to_base(elastic, round_up) {
            Ok(b) => b,
            Err(e) => {
                return Err(e);
            },
        };
        match self.add_e_b(elastic, base) {
            Ok(total) => Ok((total, elastic)),
            Err(e) => Err(e),
        }
    }

    /// Adds `elastic` and `base`. On an error the ledger is left as it was.
    pub fn add_e_b(&mut self, elastic: u64, base: u64) -> (r: Result<Rebase, ErrorCode>)
        ensures
            r == old(self).spec_add_e_b(elastic, base),
            match r {
                Ok(total) => *final(self) == total,
                Err(_) => *final(self) == *old(self),
            },
    {
        let new_elastic = match self.elastic.checked_add(elastic as u128) {
            Some(v) => v,
            None => {
                return Err(ErrorCode::WrongIntegerAddition);
            },
        };
        let new_base = match self.base.checked_add(base as u128) {
            Some(v) => v,
            None => {
                return Err(ErrorCode::WrongIntegerAddition);
            },
        };
        self.elastic = new_elastic;
        self.base = new_base;
        Ok(*self)
    }

    /// Takes out `base` shares and the amount they are worth. Returns the new
    /// ledger and the amount taken; on an error the ledger is left as it was.
    pub fn sub_e(&mut self, base: u64, round_up: bool) -> (r: Result<(Rebase, u64), ErrorCode>)
        ensures
            r == old(self).spec_sub_e(base, round_up),
            match r {
                Ok((total, _)) => *final(self) == total,
                Err(_) => *final(self) == *old(self),
            },
    {
        let elastic = match self.to_elastic(base, round_up) {
            Ok(v) => v,
            Err(e) => {
                return Err(e);
            },
        };
        match self.sub_e_b(elastic, base) {
            Ok(total) => Ok((total, elastic)),
            Err(e) => Err(e),
        }
    }

    /// Takes out `elastic` and `base`. On an error the ledger is left as it was.
    pub fn sub_e_b(&mut self, elastic: u64, base: u64) -> (r: Result<Rebase, ErrorCode>)
        ensures
            r == old(self).spec_sub_e_b(elastic, base),
            match r {
                Ok(total) => *final(self) == total,
                Err(_) => *final(self) == *old(self),
            },
    {
        let new_elastic = match self.elastic.checked_sub(elastic as u128) {
            Some(v) => v,
            None => {
                return Err(ErrorCode::WrongIntegerSubtraction);
            },
        };
        let new_base = match self.base.checked_sub(base as u128) {
            Some(v) => v,
            None => {
                return Err(ErrorCode::WrongIntegerSubtraction);
            },
        };
        self.elastic = new_elastic;
        self.base = new_base;
        Ok(*self)
    }
}

/// Round-trip bound. On a ledger with both sides above zero, turning an
/// amount into shares and the shares back into an amount gives at most the
/// amount when both steps round down, and at least the amount when both round
/// up, wherever the four conversions succeed.
#[verifier::rlimit(40)]
pub proof fn lemma_round_trip_bound(total: Rebase, e: u64)
    requires
        total.base > 0,
        total.elastic > 0,
        total.spec_to_base(e, false) is Ok,
        total.spec_to_base(e, true) is Ok,
        total.spec_to_elastic(total.spec_to_base(e, false).unwrap(), false) is Ok,
        total.spec_to_elastic(total.spec_to_base(e, true).unwrap(), true) is Ok,
    ensures
        total.spec_to_elastic(total.spec_to_base(e, false).unwrap(), false).unwrap() <= e,
        e <= total.spec_to_elastic(total.spec_to_base(e, true).unwrap(), true).unwrap(),
{
    let b = total.base as nat;
    let el = total.elastic as nat;
    let a = e as nat;
    let down = (b * a) / el;
    let up = div_ceil(b * a, el);
    assert(down * el <= b * a && up * el >= b * a) by (nonlinear_arith)
        requires
            el > 0,
            down == (b * a) / el,
            up == (if (b * a) % el == 0 {
                (b * a) / el
            } else {
                (b * a) / el + 1
            }),
    ;
    assert((el * down) / b <= a) by (nonlinear_arith)
        requires
            b > 0,
            down * el <= b * a,
    ;
    assert((el * up) / b >= a) by (nonlinear_arith)
        requires
            b > 0,
            up * el >= b * a,
    ;
}

/// No gain from going in and out. Shares bought for an amount, rounded down,
/// and sold again at once, rounded down, return no more than the amount.
#[verifier::rlimit(40)]
pub proof fn lemma_in_and_out_gains_nothing(total: Rebase, amount: u64)
    requires
        total.spec_to_base(amount, false) is Ok,
        total.spec_add_e_b(amount, total.spec_to_base(amount, false).unwrap()) is Ok,
        total.spec_add_e_b(amount, total.spec_to_base(amount, false).unwrap()).unwrap().spec_to_elastic(
            total.spec_to_base(amount, false).unwrap(),
            false,
        ) is Ok,
    ensures
        total.spec_add_e_b(amount, total.spec_to_base(amount, false).unwrap()).unwrap().spec_to_elastic(
            total.spec_to_base(amount, false).unwrap(),
            false,
        ).unwrap() <= amount,
{
    let share = total.spec_to_base(amount, false).unwrap() as nat;
    let a = amount as nat;
    let b = total.base as nat;
    let e = total.elastic as nat;
    if b + share > 0 {
        assert(e * share <= a * b) by (nonlinear_arith)
            requires
                e == 0 ==> share == a,
                e > 0 ==> share == (b * a) / e,
        {
            if e > 0 {
                assert(((b * a) / e) * e <= b * a);
            } else {
                assert(0 * share == 0);
            }
        }
        assert(((e + a) * share) / (b + share) <= a) by (nonlinear_arith)
            requires
                e * share <= a * b,
                b + share > 0,
        ;
    }
}

} // verus!
