use vstd::arithmetic::div_mod::{lemma_fundamental_div_mod, lemma_hoist_over_denominator,
    lemma_mod_multiples_vanish};
use vstd::prelude::*;

use crate::error::Error;

verus! {

/// Number of atomic units in one whole rate unit: a rate carries eighteen
/// fractional decimal digits.
pub const RATE_FRACTIONAL: u128 = 1_000_000_000_000_000_000;

/// A non-negative fixed-point conversion rate. A rate of `atomics` stands for
/// the fraction `atomics / RATE_FRACTIONAL`: that many units of a backing
/// asset are owed per unit of receipt token.
#[derive(Clone, Copy, Debug, PartialEq, Eq, Structural)]
pub struct Rate {
    pub atomics: u128,
}

impl Rate {
    /// The zero rate: the corresponding backing asset is not required.
    pub fn zero() -> (r: Rate)
        ensures
            r.atomics == 0,
    {
        Rate { atomics: 0 }
    }

    /// The rate `p / 100`.
    pub fn percent(p: u64) -> (r: Rate)
        ensures
            r.atomics == p * 10_000_000_000_000_000,
    {
        Rate { atomics: (p as u128) * 10_000_000_000_000_000 }
    }

    /// A rate given directly in atomic units of `1 / RATE_FRACTIONAL`.
    pub fn from_atomics(atomics: u128) -> (r: Rate)
        ensures
            r.atomics == atomics,
    {
        Rate { atomics }
    }
}

/// The exact product `amount * rate`, scaled in atomic rate units.
pub open spec fn rate_product(amount: u128, rate: Rate) -> int {
    amount * rate.atomics
}

/// Whether `amount * rate` lands on a whole number of base units.
pub open spec fn product_is_integral(amount: u128, rate: Rate) -> bool {
    rate_product(amount, rate) % (RATE_FRACTIONAL as int) == 0
}

/// The collateral owed for `amount` receipt units at `rate`, in base units.
pub open spec fn rate_mul_value(amount: u128, rate: Rate) -> int {
    rate_product(amount, rate) / (RATE_FRACTIONAL as int)
}

/// Whether the collateral amount is representable in the ledger's base type.
pub open spec fn rate_mul_fits(amount: u128, rate: Rate) -> bool {
    rate_mul_value(amount, rate) <= u128::MAX
}

/// Splitting two factors at the scale `d` rewrites their product as a
/// multiple of `d` plus the product of the two low parts.
#[verifier::rlimit(50)]
proof fn lemma_product_split(a: int, n: int, d: int, aq: int, ar: int, nq: int, nr: int)
    by (nonlinear_arith)
    requires
        a == aq * d + ar,
        n == nq * d + nr,
    ensures
        a * n == ((aq * nq) * d + aq * nr + ar * nq) * d + ar * nr,
{
}

/// The product of values below a bound stays below the bound's square.
proof fn lemma_mul_bound(x: int, y: int, b: int)
    by (nonlinear_arith)
    requires
        0 <= x < b,
        0 <= y < b,
    ensures
        0 <= x * y,
        x * y <= (b - 1) * (b - 1),
{
}

/// Products of non-negative factors are at least each factor when the other
/// is at least one, and are non-negative.
proof fn lemma_mul_ge_parts(x: int, y: int)
    by (nonlinear_arith)
    requires
        0 <= x,
        1 <= y,
    ensures
        x <= x * y,
        0 <= x * y,
{
}

/// Multiply `amount` receipt units by a fixed-point `rate`, exactly.
///
/// The whole multiplication is carried out at full precision: it fails with
/// `NonIntegralProduct` when the product is not a whole number of base units,
/// and with `ArithmeticOverflow` when the exact result does not fit the
/// ledger's base type. It never rounds and never wraps.
pub fn checked_rate_mul(amount: u128, rate: Rate) -> (r: Result<u128, Error>)
    ensures
        match r {
            Ok(v) => product_is_integral(amount, rate) && rate_mul_fits(amount, rate) && v
                == rate_mul_value(amount, rate),
            Err(Error::NonIntegralProduct) => !product_is_integral(amount, rate),
            Err(Error::ArithmeticOverflow) => product_is_integral(amount, rate)
                && !rate_mul_fits(amount, rate),
            Err(_) => false,
        },
{
    let d: u128 = RATE_FRACTIONAL;
    let aq: u128 = amount / d;
    let ar: u128 = amount % d;
    let nq: u128 = rate.atomics / d;
    let nr: u128 = rate.atomics % d;
    proof {
        lemma_fundamental_div_mod(amount as int, d as int);
        lemma_fundamental_div_mod(rate.atomics as int, d as int);
        lemma_product_split(
            amount as int,
            rate.atomics as int,
            d as int,
            aq as int,
            ar as int,
            nq as int,
            nr as int,
        );
        lemma_mul_bound(ar as int, nr as int, d as int);
    }
    let ghost whole: int = (aq * nq) * d + aq * nr + ar * nq;
    let ghost product: int = rate_product(amount, rate);
    proof {
        assert(product == whole * d + ar * nr);
        assert(whole >= 0) by (nonlinear_arith)
            requires
                whole == (aq * nq) * d + aq * nr + ar * nq,
                aq >= 0,
                ar >= 0,
                nq >= 0,
                nr >= 0,
                d >= 1,
        ;
    }
    let tail: u128 = ar * nr;
    proof {
        lemma_mod_multiples_vanish(whole, tail as int, d as int);
    }
    if tail % d != 0 {
        return Err(Error::NonIntegralProduct);
    }
    proof {
        lemma_hoist_over_denominator(tail as int, whole, d as nat);
        assert(rate_mul_value(amount, rate) == whole + tail / d);
    }
    let tq: u128 = tail / d;
    proof {
        assert(aq * nq >= 0 && aq * nr >= 0 && ar * nq >= 0) by (nonlinear_arith)
            requires
                aq >= 0,
                ar >= 0,
                nq >= 0,
                nr >= 0,
        ;
        lemma_mul_ge_parts(aq * nq, d as int);
    }
    let p1: u128 = match aq.checked_mul(nq) {
        Some(v) => v,
        None => {
            return Err(Error::ArithmeticOverflow);
        },
    };
    let p2: u128 = match p1.checked_mul(d) {
        Some(v) => v,
        None => {
            return Err(Error::ArithmeticOverflow);
        },
    };
    let p3: u128 = match aq.checked_mul(nr) {
        Some(v) => v,
        None => {
            return Err(Error::ArithmeticOverflow);
        },
    };
    let p4: u128 = match ar.checked_mul(nq) {
        Some(v) => v,
        None => {
            return Err(Error::ArithmeticOverflow);
        },
    };
    let s1: u128 = match p2.checked_add(p3) {
        Some(v) => v,
        None => return Err(Error::ArithmeticOverflow),
    };
    let s2: u128 = match s1.checked_add(p4) {
        Some(v) => v,
        None => return Err(Error::ArithmeticOverflow),
    };
    match s2.checked_add(tq) {
        Some(v) => Ok(v),
        None => Err(Error::ArithmeticOverflow),
    }
}

} // verus!
