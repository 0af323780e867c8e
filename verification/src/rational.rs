//! Rational time bases and exact timestamp rescaling.
//!
//! A stream's time base is a rational number of seconds per tick; every
//! packet and frame timestamp is an integer count of such ticks. Moving a
//! timestamp between two time bases multiplies by the exact ratio of the two
//! rationals and rounds to the nearest tick (half away from zero), never
//! through floating point.

use vstd::arithmetic::div_mod::{lemma_div_pos_is_pos, lemma_fundamental_div_mod};
use vstd::prelude::*;

verus! {

/// A rational number, used for time bases (seconds per tick) and aspect
/// ratios. For a time base both components are strictly positive.
#[derive(Clone, Copy, PartialEq, Eq, Structural, Debug)]
pub struct Rational {
    pub num: i32,
    pub den: i32,
}

impl Rational {
    /// A usable time base: strictly positive numerator and denominator.
    pub open spec fn is_time_base(self) -> bool {
        0 < self.num && 0 < self.den
    }

    pub fn new(num: i32, den: i32) -> (r: Rational)
        ensures
            r.num == num,
            r.den == den,
    {
        Rational { num, den }
    }
}

/// Quotient a / b rounded to the nearest integer, halves rounded up.
pub open spec fn round_div(a: int, b: int) -> int
    recommends
        0 < b,
{
    (2 * a + b) / (2 * b)
}

/// The rescaling rule: a timestamp `t` counted in ticks of `from.num/from.den`
/// seconds each, re-expressed in ticks of `to.num/to.den` seconds each, so
/// `t * from.num * to.den / (from.den * to.num)` rounded to the nearest tick,
/// halves away from zero.
pub open spec fn rescale(t: int, from: Rational, to: Rational) -> int
    recommends
        from.is_time_base(),
        to.is_time_base(),
{
    let a = t * from.num * to.den;
    let b = from.den * to.num;
    if t >= 0 {
        round_div(a, b)
    } else {
        -round_div(-a, b)
    }
}

/// Whether the rescaled value of `t` still fits in a 64-bit timestamp.
pub open spec fn rescale_fits(t: int, from: Rational, to: Rational) -> bool {
    i64::MIN <= rescale(t, from, to) <= i64::MAX
}

/// Rescale a timestamp from one time base to another, per `rescale`.
pub fn rescale_ts(t: i64, from: Rational, to: Rational) -> (r: i64)
    requires
        from.is_time_base(),
        to.is_time_base(),
        rescale_fits(t as int, from, to),
    ensures
        r as int == rescale(t as int, from, to),
{
    let neg: bool = t < 0;
    let tm: u128 = if neg {
        (-(t as i128)) as u128
    } else {
        t as u128
    };
    let n1: u128 = from.num as u128;
    let d1: u128 = from.den as u128;
    let n2: u128 = to.num as u128;
    let d2: u128 = to.den as u128;
    proof {
        assert(tm <= 0x8000_0000_0000_0000);
        assert(n1 <= 0x7fff_ffff && d1 <= 0x7fff_ffff);
        assert(n2 <= 0x7fff_ffff && d2 <= 0x7fff_ffff);
        assert(tm * n1 <= 0x8000_0000_0000_0000 * 0x7fff_ffff) by (nonlinear_arith)
            requires
                tm <= 0x8000_0000_0000_0000,
                n1 <= 0x7fff_ffff,
        ;
        assert((tm * n1) * d2 <= (0x8000_0000_0000_0000 * 0x7fff_ffff) * 0x7fff_ffff)
            by (nonlinear_arith)
            requires
                tm * n1 <= 0x8000_0000_0000_0000 * 0x7fff_ffff,
                d2 <= 0x7fff_ffff,
        ;
        assert(d1 * n2 <= 0x7fff_ffff * 0x7fff_ffff) by (nonlinear_arith)
            requires
                d1 <= 0x7fff_ffff,
                n2 <= 0x7fff_ffff,
        ;
        assert(0 < d1 * n2) by (nonlinear_arith)
            requires
                0 < d1,
                0 < n2,
        ;
    }
    let a: u128 = tm * n1 * d2;
    let b: u128 = d1 * n2;
    let q: u128 = (2 * a + b) / (2 * b);
    proof {
        lemma_div_pos_is_pos(2 * a + b, 2 * b);
        vstd::arithmetic::div_mod::lemma_div_is_ordered(
            2 * a + b,
            2 * (0x8000_0000_0000_0000 * 0x7fff_ffff * 0x7fff_ffff) + b,
            2 * b,
        );
        vstd::arithmetic::div_mod::lemma_div_is_ordered_by_denominator(
            2 * (0x8000_0000_0000_0000 * 0x7fff_ffff * 0x7fff_ffff) + b,
            2,
            2 * b,
        );
    }
    let qi: i128 = q as i128;
    let r128: i128 = if neg {
        -qi
    } else {
        qi
    };
    proof {
        if neg {
            assert(tm == -(t as int));
            assert((tm * n1) * d2 == -((t as int * n1) * d2)) by (nonlinear_arith)
                requires
                    tm == -(t as int),
            ;
            assert(r128 == rescale(t as int, from, to));
        } else {
            assert(r128 == rescale(t as int, from, to));
        }
    }
    r128 as i64
}

/// Rescaling a non-negative timestamp to a time base at least as fine as the
/// source and back again lands within one tick of where it started: rounding
/// drift over a round trip is bounded.
pub proof fn lemma_rescale_round_trip(t: int, tb1: Rational, tb2: Rational)
    requires
        tb1.is_time_base(),
        tb2.is_time_base(),
        t >= 0,
        tb1.den * tb2.num <= tb1.num * tb2.den,
    ensures
        -1 <= rescale(rescale(t, tb1, tb2), tb2, tb1) - t <= 1,
{
    let q1 = tb1.num * tb2.den;
    let q2 = tb1.den * tb2.num;
    assert(0 < q1 && 0 < q2) by (nonlinear_arith)
        requires
            0 < tb1.num && 0 < tb1.den && 0 < tb2.num && 0 < tb2.den,
            q1 == tb1.num * tb2.den,
            q2 == tb1.den * tb2.num,
    ;
    let a1 = t * tb1.num * tb2.den;
    assert(a1 == t * q1) by (nonlinear_arith)
        requires
            a1 == t * tb1.num * tb2.den,
            q1 == tb1.num * tb2.den,
    ;
    assert(a1 >= 0) by (nonlinear_arith)
        requires
            t >= 0,
            0 < q1,
            a1 == t * q1,
    ;
    let tp = rescale(t, tb1, tb2);
    assert(tp == (2 * a1 + q2) / (2 * q2));
    lemma_fundamental_div_mod(2 * a1 + q2, 2 * q2);
    let r1 = (2 * a1 + q2) % (2 * q2);
    assert(2 * a1 + q2 == 2 * q2 * tp + r1);
    assert(0 <= r1 < 2 * q2) by {
        vstd::arithmetic::div_mod::lemma_mod_bound(2 * a1 + q2, 2 * q2);
    }
    lemma_div_pos_is_pos(2 * a1 + q2, 2 * q2);
    assert(tp >= 0);

    let a2 = tp * tb2.num * tb1.den;
    let b2 = tb2.den * tb1.num;
    assert(a2 == tp * q2) by (nonlinear_arith)
        requires
            a2 == tp * tb2.num * tb1.den,
            q2 == tb1.den * tb2.num,
    ;
    assert(b2 == q1) by (nonlinear_arith)
        requires
            b2 == tb2.den * tb1.num,
            q1 == tb1.num * tb2.den,
    ;
    let tpp = rescale(tp, tb2, tb1);
    assert(tpp == (2 * a2 + b2) / (2 * b2));
    lemma_fundamental_div_mod(2 * a2 + b2, 2 * b2);
    let r2 = (2 * a2 + b2) % (2 * b2);
    assert(2 * a2 + b2 == 2 * b2 * tpp + r2);
    assert(0 <= r2 < 2 * b2) by {
        vstd::arithmetic::div_mod::lemma_mod_bound(2 * a2 + b2, 2 * b2);
    }

    // Combine the two division identities: 2*q1*(tpp - t) == q1 + q2 - r1 - r2.
    assert(2 * q1 * tpp == 2 * tp * q2 + q1 - r2) by (nonlinear_arith)
        requires
            2 * a2 + b2 == 2 * b2 * tpp + r2,
            a2 == tp * q2,
            b2 == q1,
    ;
    assert(2 * tp * q2 == 2 * t * q1 + q2 - r1) by (nonlinear_arith)
        requires
            2 * a1 + q2 == 2 * q2 * tp + r1,
            a1 == t * q1,
    ;
    assert(2 * q1 * (tpp - t) == q1 + q2 - r1 - r2) by (nonlinear_arith)
        requires
            2 * q1 * tpp == 2 * tp * q2 + q1 - r2,
            2 * tp * q2 == 2 * t * q1 + q2 - r1,
    ;
    assert(-1 <= tpp - t <= 1) by (nonlinear_arith)
        requires
            0 < q1,
            0 < q2,
            q2 <= q1,
            0 <= r1 < 2 * q2,
            0 <= r2 < 2 * q1,
            2 * q1 * (tpp - t) == q1 + q2 - r1 - r2,
    ;
}

} // verus!
