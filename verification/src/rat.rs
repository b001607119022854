//! Exact rational numbers over `i128`, with an unbounded mathematical model.

use vstd::prelude::*;

verus! {

/// Mathematical model of a rational number: an unbounded numerator over an
/// unbounded denominator.  The denoted value is `num / den`.
pub struct RatModel {
    pub num: int,
    pub den: int,
}

impl RatModel {
    /// A model is well-formed when its denominator is positive.
    pub open spec fn wf(self) -> bool {
        self.den > 0
    }

    /// The two models denote the same rational value (cross multiplication).
    #[verifier::inline]
    pub open spec fn eq_value(self, other: RatModel) -> bool {
        self.num * other.den == other.num * self.den
    }

    /// `self` denotes a strictly smaller value than `other`
    /// (to be read on well-formed models).
    #[verifier::inline]
    pub open spec fn lt_value(self, other: RatModel) -> bool {
        self.num * other.den < other.num * self.den
    }

    /// The exact product of the two denoted values.
    #[verifier::inline]
    pub open spec fn times(self, other: RatModel) -> RatModel {
        RatModel { num: self.num * other.num, den: self.den * other.den }
    }

    /// The exact sum of the two denoted values.
    #[verifier::inline]
    pub open spec fn plus(self, other: RatModel) -> RatModel {
        RatModel { num: self.num * other.den + other.num * self.den, den: self.den * other.den }
    }

    /// The exact quotient of the two denoted values; the divisor's sign moves
    /// into the numerator, so a well-formed nonzero divisor gives a
    /// well-formed result.
    #[verifier::inline]
    pub open spec fn divided_by(self, other: RatModel) -> RatModel {
        if other.num >= 0 {
            RatModel { num: self.num * other.den, den: self.den * other.num }
        } else {
            RatModel { num: -(self.num * other.den), den: -(self.den * other.num) }
        }
    }

    /// The exact negation of the denoted value.
    #[verifier::inline]
    pub open spec fn negated(self) -> RatModel {
        RatModel { num: -self.num, den: self.den }
    }

    /// Numerator and denominator both divided by `k`; when `k` divides both,
    /// the denoted value is unchanged.
    #[verifier::inline]
    pub open spec fn scaled_down(self, k: int) -> RatModel {
        RatModel { num: self.num / k, den: self.den / k }
    }
}

/// The raw cross products of a multiplication stay within `i128`.
#[verifier::inline]
pub open spec fn times_fits(a: RatModel, b: RatModel) -> bool {
    &&& i128::MIN <= a.num * b.num <= i128::MAX
    &&& a.den * b.den <= i128::MAX
}

/// The raw cross products and their sum for an addition stay within `i128`.
#[verifier::inline]
pub open spec fn plus_fits(a: RatModel, b: RatModel) -> bool {
    &&& i128::MIN <= a.num * b.den <= i128::MAX
    &&& i128::MIN <= b.num * a.den <= i128::MAX
    &&& i128::MIN <= a.num * b.den + b.num * a.den <= i128::MAX
    &&& a.den * b.den <= i128::MAX
}

/// The raw cross products of a division and their negations stay within `i128`.
#[verifier::inline]
pub open spec fn divided_by_fits(a: RatModel, b: RatModel) -> bool {
    &&& i128::MIN < a.num * b.den <= i128::MAX
    &&& i128::MIN < a.den * b.num <= i128::MAX
}

/// The raw cross products of a value comparison stay within `i128`.
#[verifier::inline]
pub open spec fn compare_fits(a: RatModel, b: RatModel) -> bool {
    &&& i128::MIN <= a.num * b.den <= i128::MAX
    &&& i128::MIN <= b.num * a.den <= i128::MAX
}

/// An exact rational number `num / den` with a positive denominator.
#[derive(Clone, Copy, Debug, PartialEq, Eq, Structural)]
pub struct Rat {
    pub num: i128,
    pub den: i128,
}

impl View for Rat {
    type V = RatModel;

    open spec fn view(&self) -> RatModel {
        RatModel { num: self.num as int, den: self.den as int }
    }
}

impl Rat {
    /// A rational is well-formed when its denominator is positive.
    pub open spec fn wf(self) -> bool {
        self@.wf()
    }

    pub fn new(num: i128, den: i128) -> (r: Rat)
        requires
            den > 0,
        ensures
            r@ == (RatModel { num: num as int, den: den as int }),
            r.wf(),
    {
        Rat { num, den }
    }

    pub fn from_int(n: i128) -> (r: Rat)
        ensures
            r@ == (RatModel { num: n as int, den: 1 }),
            r.wf(),
    {
        Rat { num: n, den: 1 }
    }

    /// Exact product.
    pub fn times(self, other: Rat) -> (r: Rat)
        requires
            self.wf(),
            other.wf(),
            times_fits(self@, other@),
        ensures
            r@ == self@.times(other@),
            r.wf(),
    {
        proof {
            assert(self.den * other.den > 0) by (nonlinear_arith)
                requires
                    self.den > 0,
                    other.den > 0,
            ;
        }
        Rat { num: self.num * other.num, den: self.den * other.den }
    }

    /// Exact sum.
    pub fn plus(self, other: Rat) -> (r: Rat)
        requires
            self.wf(),
            other.wf(),
            plus_fits(self@, other@),
        ensures
            r@ == self@.plus(other@),
            r.wf(),
    {
        proof {
            assert(self.den * other.den > 0) by (nonlinear_arith)
                requires
                    self.den > 0,
                    other.den > 0,
            ;
        }
        Rat { num: self.num * other.den + other.num * self.den, den: self.den * other.den }
    }

    /// Exact quotient; the divisor must denote a nonzero value.
    pub fn divided_by(self, other: Rat) -> (r: Rat)
        requires
            self.wf(),
            other.wf(),
            other@.num != 0,
            divided_by_fits(self@, other@),
        ensures
            r@ == self@.divided_by(other@),
            r.wf(),
    {
        if other.num >= 0 {
            proof {
                assert(self.den * other.num > 0) by (nonlinear_arith)
                    requires
                        self.den > 0,
                        other.num > 0,
                ;
            }
            Rat { num: self.num * other.den, den: self.den * other.num }
        } else {
            proof {
                assert(self.den * other.num < 0) by (nonlinear_arith)
                    requires
                        self.den > 0,
                        other.num < 0,
                ;
            }
            Rat { num: -(self.num * other.den), den: -(self.den * other.num) }
        }
    }

    /// Exact negation.
    pub fn negated(self) -> (r: Rat)
        requires
            i128::MIN < self.num,
        ensures
            r@ == self@.negated(),
            self.wf() ==> r.wf(),
    {
        Rat { num: -self.num, den: self.den }
    }

    /// Divide numerator and denominator by a common factor `k`; the result
    /// denotes the same rational value in a smaller representation.
    pub fn scaled_down(self, k: i128) -> (r: Rat)
        requires
            self.wf(),
            0 <= self.num,
            0 < k,
            self@.num % (k as int) == 0,
            self@.den % (k as int) == 0,
        ensures
            r@ == self@.scaled_down(k as int),
            r.wf(),
            r@.eq_value(self@),
    {
        let qn: u128 = (self.num as u128) / (k as u128);
        let qd: u128 = (self.den as u128) / (k as u128);
        proof {
            let n: int = self.num as int;
            let d: int = self.den as int;
            let ki: int = k as int;
            vstd::arithmetic::div_mod::lemma_fundamental_div_mod(n, ki);
            vstd::arithmetic::div_mod::lemma_fundamental_div_mod(d, ki);
            assert(n == ki * (n / ki));
            assert(d == ki * (d / ki));
            assert(n / ki >= 0 && n / ki <= n) by (nonlinear_arith)
                requires
                    n >= 0,
                    ki > 0,
                    n == ki * (n / ki),
            ;
            assert(d / ki > 0 && d / ki <= d) by (nonlinear_arith)
                requires
                    d > 0,
                    ki > 0,
                    d == ki * (d / ki),
            ;
            assert((n / ki) * d == n * (d / ki)) by (nonlinear_arith)
                requires
                    n == ki * (n / ki),
                    d == ki * (d / ki),
            ;
        }
        Rat { num: qn as i128, den: qd as i128 }
    }

    /// Decide whether the two rationals denote the same value.
    pub fn same_value(self, other: Rat) -> (b: bool)
        requires
            self.wf(),
            other.wf(),
            compare_fits(self@, other@),
        ensures
            b == self@.eq_value(other@),
    {
        self.num * other.den == other.num * self.den
    }

    /// Decide whether `self` denotes a strictly smaller value than `other`.
    pub fn below(self, other: Rat) -> (b: bool)
        requires
            self.wf(),
            other.wf(),
            compare_fits(self@, other@),
        ensures
            b == self@.lt_value(other@),
    {
        self.num * other.den < other.num * self.den
    }
}

} // verus!
