//! Exact rational values kept as an explicit numerator/denominator pair.
//!
//! The temperature transform must stay exact: hardware counts are small
//! integers and the slope between the two factory anchors is rarely a whole
//! number, so the result is carried as a fraction and only rounded on demand.

use vstd::prelude::*;

verus! {

/// The absolute value of a mathematical integer.
pub open spec fn abs_int(v: int) -> int {
    if v < 0 {
        -v
    } else {
        v
    }
}

/// Division rounding toward zero, as machine integer division does.
/// Unspecified when `d == 0`.
pub open spec fn trunc_div(n: int, d: int) -> int {
    if (n < 0) == (d < 0) {
        abs_int(n) / abs_int(d)
    } else {
        -(abs_int(n) / abs_int(d))
    }
}

/// An exact fraction `numer / denom` of machine integers.
#[derive(Clone, Copy, Debug, PartialEq, Eq, Structural)]
pub struct Ratio {
    /// Numerator of the fraction.
    pub numer: i32,
    /// Denominator of the fraction; zero denotes no value and is ruled out
    /// by every operation.
    pub denom: i32,
}

impl Ratio {
    /// A fraction denotes a rational value only when its denominator is
    /// non-zero.
    pub open spec fn well_formed(self) -> bool {
        self.denom != 0
    }

    /// The fraction denotes exactly the integer `v`.
    pub open spec fn is_int(self, v: int) -> bool {
        self.numer == v * self.denom
    }

    /// The integer part of the fraction, rounding toward zero.
    pub open spec fn spec_to_integer(self) -> int {
        trunc_div(self.numer as int, self.denom as int)
    }

    /// Build the fraction `numer / denom`.
    pub fn new(numer: i32, denom: i32) -> (r: Ratio)
        requires
            denom != 0,
        ensures
            r == (Ratio { numer, denom }),
            r.well_formed(),
    {
        Ratio { numer, denom }
    }

    /// The numerator of the fraction.
    pub fn numer(&self) -> (r: i32)
        ensures
            r == self.numer,
    {
        self.numer
    }

    /// The denominator of the fraction.
    pub fn denom(&self) -> (r: i32)
        ensures
            r == self.denom,
    {
        self.denom
    }

    /// Round the fraction to an integer, toward zero.
    ///
    /// The one quotient that does not fit the result width,
    /// `i32::MIN / -1`, is excluded.
    pub fn to_integer(&self) -> (r: i32)
        requires
            self.well_formed(),
            !(self.numer == i32::MIN && self.denom == -1),
        ensures
            r == self.spec_to_integer(),
    {
        let n: i64 = self.numer as i64;
        let d: i64 = self.denom as i64;
        let un: u64 = if n < 0 {
            (-n) as u64
        } else {
            n as u64
        };
        let ud: u64 = if d < 0 {
            (-d) as u64
        } else {
            d as u64
        };
        let neg: bool = (n < 0) != (d < 0);
        let q: u64 = un / ud;
        proof {
            vstd::arithmetic::div_mod::lemma_div_basics_5(un as int, ud as int);
            if un == 0x8000_0000 && !neg {
                // the numerator is `i32::MIN`, so the denominator is negative
                // and, being distinct from -1, its magnitude is at least 2
                vstd::arithmetic::div_mod::lemma_div_is_ordered_by_denominator(
                    un as int,
                    2,
                    ud as int,
                );
            }
        }
        let qi: i64 = if neg {
            -(q as i64)
        } else {
            q as i64
        };
        qi as i32
    }
}

/// Law: a fraction that denotes exactly the integer `v` rounds to `v`.
pub proof fn lemma_is_int_to_integer(r: Ratio, v: int)
    requires
        r.well_formed(),
        r.is_int(v),
    ensures
        r.spec_to_integer() == v,
{
    let n = r.numer as int;
    let d = r.denom as int;
    let an = abs_int(n);
    let ad = abs_int(d);
    if v == 0 {
        assert(n == 0) by (nonlinear_arith)
            requires
                n == v * d,
                v == 0,
        ;
        vstd::arithmetic::div_mod::lemma_div_multiples_vanish(0, ad);
        assert(ad * 0 == 0);
    } else if v > 0 {
        assert(an == ad * v && (n < 0) == (d < 0)) by (nonlinear_arith)
            requires
                n == v * d,
                v > 0,
                d != 0,
                an == (if n < 0 {
                    -n
                } else {
                    n
                }),
                ad == (if d < 0 {
                    -d
                } else {
                    d
                }),
        ;
        vstd::arithmetic::div_mod::lemma_div_multiples_vanish(v, ad);
    } else {
        assert(an == ad * (-v) && (n < 0) != (d < 0)) by (nonlinear_arith)
            requires
                n == v * d,
                v < 0,
                d != 0,
                an == (if n < 0 {
                    -n
                } else {
                    n
                }),
                ad == (if d < 0 {
                    -d
                } else {
                    d
                }),
        ;
        vstd::arithmetic::div_mod::lemma_div_multiples_vanish(-v, ad);
    }
}

} // verus!
