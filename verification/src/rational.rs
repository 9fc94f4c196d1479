//! Exact scalar arithmetic for angle values.
//!
//! [`Rat`] is the mathematical model: a fraction of unbounded integers used
//! in specifications only. [`Scalar`] is the executable counterpart, a
//! fraction of bounded machine integers whose every operation is proved to
//! return exactly the modelled rational.

use vstd::prelude::*;

verus! {

/// Largest magnitude a `Scalar` numerator may take, and the largest value of
/// its denominator. Chosen so that any product of two in-range fields fits
/// comfortably in an `i128` intermediate.
pub const MAX_MAG: i128 = 0x4000_0000_0000_0000;

/// Mathematical model of a scalar: the exact fraction `num / den`.
///
/// A well-formed value keeps `den` positive; two values denote the same
/// rational number when [`Rat::eqv`] holds, i.e. when their cross products
/// agree. Specifications state every operation over this model.
pub struct Rat {
    pub num: int,
    pub den: int,
}

impl Rat {
    /// Well-formed: the denominator is positive.
    pub open spec fn wf(self) -> bool {
        self.den > 0
    }

    /// The rational zero.
    pub open spec fn zero() -> Rat {
        Rat { num: 0, den: 1 }
    }

    /// The rational one.
    pub open spec fn one() -> Rat {
        Rat { num: 1, den: 1 }
    }

    /// The fraction `n / d`, with the sign carried by the numerator.
    pub open spec fn of(n: int, d: int) -> Rat {
        if d >= 0 {
            Rat { num: n, den: d }
        } else {
            Rat { num: -n, den: -d }
        }
    }

    /// The integer `n` as a rational.
    pub open spec fn of_int(n: int) -> Rat {
        Rat { num: n, den: 1 }
    }

    /// Value equality: `self` and `other` denote the same rational number.
    pub open spec fn eqv(self, other: Rat) -> bool {
        self.num * other.den == other.num * self.den
    }

    /// Value order: `self <= other`.
    pub open spec fn le(self, other: Rat) -> bool {
        self.num * other.den <= other.num * self.den
    }

    /// Value order: `self < other`.
    pub open spec fn lt(self, other: Rat) -> bool {
        self.num * other.den < other.num * self.den
    }

    /// The value is zero.
    pub open spec fn is_zero(self) -> bool {
        self.num == 0
    }

    /// Sum, as the standard cross-multiplied fraction.
    pub open spec fn add(self, other: Rat) -> Rat {
        Rat { num: self.num * other.den + other.num * self.den, den: self.den * other.den }
    }

    /// Difference, as the standard cross-multiplied fraction.
    pub open spec fn sub(self, other: Rat) -> Rat {
        Rat { num: self.num * other.den - other.num * self.den, den: self.den * other.den }
    }

    /// Negation.
    pub open spec fn neg(self) -> Rat {
        Rat { num: -self.num, den: self.den }
    }

    /// Absolute value.
    pub open spec fn abs(self) -> Rat {
        if self.num < 0 {
            Rat { num: -self.num, den: self.den }
        } else {
            self
        }
    }

    /// Product.
    pub open spec fn mul(self, other: Rat) -> Rat {
        Rat { num: self.num * other.num, den: self.den * other.den }
    }

    /// Quotient, with the divisor's sign moved into the numerator so the
    /// result stays well-formed. Meaningful only for a non-zero divisor.
    pub open spec fn div(self, other: Rat) -> Rat {
        if other.num >= 0 {
            Rat { num: self.num * other.den, den: self.den * other.num }
        } else {
            Rat { num: -(self.num * other.den), den: self.den * -other.num }
        }
    }

    /// Half the value.
    pub open spec fn half(self) -> Rat {
        Rat { num: self.num, den: self.den * 2 }
    }

    /// A quarter of the value.
    pub open spec fn quarter(self) -> Rat {
        Rat { num: self.num, den: self.den * 4 }
    }

    /// Floor of the value, as an integer. (`/` on `int` rounds toward
    /// negative infinity for a positive divisor.)
    pub open spec fn floor(self) -> int {
        self.num / self.den
    }

    /// The fields lie within the bounds an executable [`Scalar`] can store.
    pub open spec fn fits(self) -> bool {
        &&& -MAX_MAG <= self.num <= MAX_MAG
        &&& 1 <= self.den <= MAX_MAG
    }
}

/// Truncating integer division, as Rust's `/` computes it on signed values.
pub open spec fn trunc_div(x: int, y: int) -> int {
    if (x < 0) == (y < 0) {
        iabs(x) / iabs(y)
    } else {
        -(iabs(x) / iabs(y))
    }
}

/// Absolute value of an integer.
pub open spec fn iabs(x: int) -> int {
    if x < 0 {
        -x
    } else {
        x
    }
}

impl Rat {
    /// Truncated remainder of `self` by `other`, matching the scalar `%`
    /// operation: `self - trunc(self / other) * other`. The result carries
    /// the dividend's sign. Meaningful only for a non-zero divisor.
    pub open spec fn rem_t(self, other: Rat) -> Rat {
        let x = self.num * other.den;
        let y = other.num * self.den;
        Rat { num: x - trunc_div(x, y) * y, den: self.den * other.den }
    }

    /// `self` lies in the standard domain `[0, p)` of a unit with period `p`.
    pub open spec fn in_range(self, p: Rat) -> bool {
        &&& Rat::zero().le(self)
        &&& self.lt(p)
    }

    /// Normalization into `[0, p)` for a positive period `p`: an already
    /// normalized value is returned unchanged, otherwise the value is wrapped
    /// by a floor-style modulus, which lands in the standard domain for
    /// negative inputs as well.
    pub open spec fn norm(self, p: Rat) -> Rat {
        if self.in_range(p) {
            self
        } else {
            let x = self.num * p.den;
            let y = p.num * self.den;
            Rat { num: x % y, den: self.den * p.den }
        }
    }

    /// Linear rescale of a value from a unit with period `from_p` into a
    /// unit with period `to_p`: `self * to_p / from_p`.
    pub open spec fn convert(self, from_p: Rat, to_p: Rat) -> Rat {
        self.mul(to_p).div(from_p)
    }

    /// The intermediate and final fractions of a rescale fit the stored
    /// bounds, so the executable conversion is defined.
    pub open spec fn convert_ok(self, from_p: Rat, to_p: Rat) -> bool {
        &&& self.mul(to_p).fits()
        &&& self.convert(from_p, to_p).fits()
    }

    /// Direct linear blend from `self` toward `end`:
    /// `self * (1 - pos) + end * pos`.
    pub open spec fn lerp(self, end: Rat, pos: Rat) -> Rat {
        self.mul(Rat::one().sub(pos)).add(end.mul(pos))
    }

    /// The fractions a direct blend computes fit the stored bounds.
    pub open spec fn lerp_ok(self, end: Rat, pos: Rat) -> bool {
        &&& Rat::one().sub(pos).fits()
        &&& self.mul(Rat::one().sub(pos)).fits()
        &&& end.mul(pos).fits()
        &&& self.lerp(end, pos).fits()
    }

    /// Shortest-path blend from `self` toward `end` around a circle of
    /// period `p`: when the two values lie more than half a period apart
    /// the numerically smaller one is lifted by one full period before the
    /// direct blend, so the blend crosses the periodic boundary the short
    /// way; otherwise the blend is direct.
    pub open spec fn lerp_shortest(self, end: Rat, p: Rat, pos: Rat) -> Rat {
        if p.half().lt(end.sub(self).abs()) {
            if end.lt(self) {
                self.lerp(end.add(p), pos)
            } else {
                self.add(p).lerp(end, pos)
            }
        } else {
            self.lerp(end, pos)
        }
    }

    /// The fractions a shortest-path blend computes fit the stored bounds.
    pub open spec fn lerp_shortest_ok(self, end: Rat, p: Rat, pos: Rat) -> bool {
        &&& end.sub(self).fits()
        &&& if p.half().lt(end.sub(self).abs()) {
            if end.lt(self) {
                end.add(p).fits() && self.lerp_ok(end.add(p), pos)
            } else {
                self.add(p).fits() && self.add(p).lerp_ok(end, pos)
            }
        } else {
            self.lerp_ok(end, pos)
        }
    }
}

/// An exact scalar: the fraction `num / den` held in machine integers.
///
/// The denominator is always positive and both fields stay within
/// [`MAX_MAG`], so that the cross products every operation computes fit in
/// an `i128`. The view of a `Scalar` is the [`Rat`] with the same fields;
/// each operation's contract states exactly which fraction it returns.
#[derive(Clone, Copy, Debug)]
pub struct Scalar {
    num: i128,
    den: i128,
}

impl Scalar {
    #[verifier::type_invariant]
    spec fn inv(self) -> bool {
        &&& -MAX_MAG <= self.num <= MAX_MAG
        &&& 1 <= self.den <= MAX_MAG
    }
}

impl View for Scalar {
    type V = Rat;

    closed spec fn view(&self) -> Rat {
        Rat { num: self.num as int, den: self.den as int }
    }
}

impl Scalar {
    /// The integer `value` as a scalar.
    pub fn from_int(value: i64) -> (r: Scalar)
        requires
            -MAX_MAG <= value <= MAX_MAG,
        ensures
            r@ == Rat::of_int(value as int),
    {
        Scalar { num: value as i128, den: 1 }
    }

    /// The fraction `num / den` as a scalar, with the sign moved into the
    /// numerator. The parts must be within [`MAX_MAG`] and the denominator
    /// non-zero.
    pub fn from_ratio(num: i64, den: i64) -> (r: Scalar)
        requires
            den != 0,
            -MAX_MAG <= num <= MAX_MAG,
            -MAX_MAG <= den <= MAX_MAG,
        ensures
            r@ == Rat::of(num as int, den as int),
    {
        if den >= 0 {
            Scalar { num: num as i128, den: den as i128 }
        } else {
            Scalar { num: -(num as i128), den: -(den as i128) }
        }
    }

    /// The scalar zero.
    pub fn zero() -> (r: Scalar)
        ensures
            r@ == Rat::zero(),
    {
        Scalar { num: 0, den: 1 }
    }

    /// The scalar one.
    pub fn one() -> (r: Scalar)
        ensures
            r@ == Rat::one(),
    {
        Scalar { num: 1, den: 1 }
    }

    /// The library's exact stand-in for the circle constant pi, the rational
    /// `355 / 113`. All conversion identities hold exactly for it, since the
    /// radian period is defined as twice this value.
    pub fn pi() -> (r: Scalar)
        ensures
            r@ == (Rat { num: 355, den: 113 }),
    {
        Scalar { num: 355, den: 113 }
    }

    /// The numerator of the held fraction.
    pub fn numerator(&self) -> (r: i128)
        ensures
            r == self@.num,
    {
        self.num
    }

    /// The denominator of the held fraction; always positive.
    pub fn denominator(&self) -> (r: i128)
        ensures
            r == self@.den,
            r > 0,
    {
        proof {
            use_type_invariant(self);
        }
        self.den
    }
}

/// Bounds of a product follow from bounds of its factors.
proof fn lemma_mul_bounds(a: int, amax: int, b: int, bmax: int)
    by (nonlinear_arith)
    requires
        -amax <= a <= amax,
        -bmax <= b <= bmax,
    ensures
        -(amax * bmax) <= a * b <= amax * bmax,
{
}

/// A product of positive factors is positive.
proof fn lemma_mul_pos(a: int, b: int)
    by (nonlinear_arith)
    requires
        a >= 1,
        b >= 1,
    ensures
        a * b >= 1,
{
}

impl Scalar {
    /// Both cross products of two scalars fit in an `i128`.
    proof fn lemma_cross_products(self, rhs: Scalar)
        requires
            self.inv(),
            rhs.inv(),
        ensures
            -(MAX_MAG * MAX_MAG) <= self.num * rhs.den <= MAX_MAG * MAX_MAG,
            -(MAX_MAG * MAX_MAG) <= rhs.num * self.den <= MAX_MAG * MAX_MAG,
            -(MAX_MAG * MAX_MAG) <= self.num * rhs.num <= MAX_MAG * MAX_MAG,
            1 <= self.den * rhs.den <= MAX_MAG * MAX_MAG,
    {
        lemma_mul_bounds(self.num as int, MAX_MAG as int, rhs.den as int, MAX_MAG as int);
        lemma_mul_bounds(rhs.num as int, MAX_MAG as int, self.den as int, MAX_MAG as int);
        lemma_mul_bounds(self.num as int, MAX_MAG as int, rhs.num as int, MAX_MAG as int);
        lemma_mul_bounds(self.den as int, MAX_MAG as int, rhs.den as int, MAX_MAG as int);
        lemma_mul_pos(self.den as int, rhs.den as int);
    }

    /// Sum of two scalars; the result must fit the stored bounds.
    pub fn add(self, rhs: Scalar) -> (r: Scalar)
        requires
            self@.add(rhs@).fits(),
        ensures
            r@ == self@.add(rhs@),
    {
        proof {
            use_type_invariant(&self);
            use_type_invariant(&rhs);
            self.lemma_cross_products(rhs);
        }
        Scalar { num: self.num * rhs.den + rhs.num * self.den, den: self.den * rhs.den }
    }

    /// Difference of two scalars; the result must fit the stored bounds.
    pub fn sub(self, rhs: Scalar) -> (r: Scalar)
        requires
            self@.sub(rhs@).fits(),
        ensures
            r@ == self@.sub(rhs@),
    {
        proof {
            use_type_invariant(&self);
            use_type_invariant(&rhs);
            self.lemma_cross_products(rhs);
        }
        Scalar { num: self.num * rhs.den - rhs.num * self.den, den: self.den * rhs.den }
    }

    /// Negation; always defined.
    pub fn neg(self) -> (r: Scalar)
        ensures
            r@ == self@.neg(),
    {
        proof {
            use_type_invariant(&self);
        }
        Scalar { num: -self.num, den: self.den }
    }

    /// Absolute value; always defined.
    pub fn abs(self) -> (r: Scalar)
        ensures
            r@ == self@.abs(),
    {
        proof {
            use_type_invariant(&self);
        }
        if self.num < 0 {
            Scalar { num: -self.num, den: self.den }
        } else {
            self
        }
    }

    /// Product of two scalars; the result must fit the stored bounds.
    pub fn mul(self, rhs: Scalar) -> (r: Scalar)
        requires
            self@.mul(rhs@).fits(),
        ensures
            r@ == self@.mul(rhs@),
    {
        proof {
            use_type_invariant(&self);
            use_type_invariant(&rhs);
            self.lemma_cross_products(rhs);
        }
        Scalar { num: self.num * rhs.num, den: self.den * rhs.den }
    }

    /// Quotient of two scalars; the divisor must be non-zero and the result
    /// must fit the stored bounds.
    pub fn div(self, rhs: Scalar) -> (r: Scalar)
        requires
            !rhs@.is_zero(),
            self@.div(rhs@).fits(),
        ensures
            r@ == self@.div(rhs@),
    {
        proof {
            use_type_invariant(&self);
            use_type_invariant(&rhs);
            self.lemma_cross_products(rhs);
        }
        if rhs.num >= 0 {
            Scalar { num: self.num * rhs.den, den: self.den * rhs.num }
        } else {
            Scalar { num: -(self.num * rhs.den), den: self.den * -rhs.num }
        }
    }

    /// Half the value; always defined for stored scalars up to the bound.
    pub fn halved(&self) -> (r: Scalar)
        requires
            self@.half().fits(),
        ensures
            r@ == self@.half(),
    {
        proof {
            use_type_invariant(self);
        }
        Scalar { num: self.num, den: self.den * 2 }
    }

    /// The value is zero.
    pub fn is_zero(&self) -> (r: bool)
        ensures
            r == self@.is_zero(),
    {
        self.num == 0
    }

    /// The value lies in `[0, p)`.
    pub fn in_range_of(&self, p: &Scalar) -> (r: bool)
        ensures
            r == self@.in_range(p@),
    {
        proof {
            use_type_invariant(self);
            use_type_invariant(p);
            self.lemma_cross_products(*p);
        }
        0 <= self.num && self.num * p.den < p.num * self.den
    }

    /// Approximate equality within an absolute tolerance, the exact analogue
    /// of the scalar's approximate-comparison surface:
    /// `|self - other| <= epsilon`.
    pub fn approx_eq(&self, other: &Scalar, epsilon: &Scalar) -> (r: bool)
        requires
            self@.sub(other@).fits(),
        ensures
            r == self@.sub(other@).abs().le(epsilon@),
    {
        let d = self.sub(*other).abs();
        proof {
            use_type_invariant(&d);
            use_type_invariant(epsilon);
            d.lemma_cross_products(*epsilon);
        }
        d.num * epsilon.den <= epsilon.num * d.den
    }
}

/// Floor division of `x` by a positive `d`, computed through unsigned
/// machine division: the quotient of mathematical (Euclidean) division.
fn floor_div_i128(x: i128, d: i128) -> (q: i128)
    requires
        i128::MIN < x,
        1 <= d,
    ensures
        q == x as int / d as int,
{
    if x >= 0 {
        let qu = (x as u128) / (d as u128);
        proof {
            assert(x as int / d as int <= x as int && 0 <= x as int / d as int) by {
                vstd::arithmetic::div_mod::lemma_fundamental_div_mod(x as int, d as int);
                vstd::arithmetic::div_mod::lemma_remainder_lower(x as int, d as int);
                vstd::arithmetic::div_mod::lemma_div_pos_is_pos(x as int, d as int);
                assert(x as int / d as int <= x as int) by (nonlinear_arith)
                    requires
                        1 <= d as int,
                        0 <= x as int,
                        x as int == d as int * (x as int / d as int) + (x as int % d as int),
                        0 <= x as int % d as int,
                        0 <= x as int / d as int,
                ;
            };
        }
        qu as i128
    } else {
        let a = (-x) as u128;
        let du = d as u128;
        let q0 = a / du;
        let r0 = a % du;
        proof {
            let ai = (-x) as int;
            let di = d as int;
            vstd::arithmetic::div_mod::lemma_fundamental_div_mod(ai, di);
            vstd::arithmetic::div_mod::lemma_mod_division_less_than_divisor(ai, di);
            vstd::arithmetic::div_mod::lemma_div_pos_is_pos(ai, di);
            assert(0 <= ai % di);
            assert(q0 as int == ai / di && r0 as int == ai % di);
            if r0 == 0 {
                assert(x as int == -(ai / di) * di + 0) by (nonlinear_arith)
                    requires
                        ai == di * (ai / di),
                        x as int == -ai,
                ;
                vstd::arithmetic::div_mod::lemma_fundamental_div_mod_converse_div(
                    x as int,
                    di,
                    -(ai / di),
                    0,
                );
            } else {
                assert(x as int == (-(ai / di) - 1) * di + (di - ai % di)) by (nonlinear_arith)
                    requires
                        ai == di * (ai / di) + ai % di,
                        x as int == -ai,
                ;
                vstd::arithmetic::div_mod::lemma_fundamental_div_mod_converse_div(
                    x as int,
                    di,
                    -(ai / di) - 1,
                    di - ai % di,
                );
            }
        }
        if r0 == 0 {
            -(q0 as i128)
        } else {
            -(q0 as i128) - 1
        }
    }
}

/// Euclidean remainder of `x` by a positive `d`: the value in `[0, d)`
/// congruent to `x`.
fn floor_mod_i128(x: i128, d: i128) -> (m: i128)
    requires
        i128::MIN < x,
        1 <= d,
    ensures
        m == x as int % d as int,
        0 <= m < d,
{
    if x >= 0 {
        let mu = (x as u128) % (d as u128);
        proof {
            vstd::arithmetic::div_mod::lemma_mod_division_less_than_divisor(x as int, d as int);
            assert(0 <= x as int % d as int);
        }
        mu as i128
    } else {
        let a = (-x) as u128;
        let du = d as u128;
        let m0 = a % du;
        proof {
            let ai = (-x) as int;
            let di = d as int;
            vstd::arithmetic::div_mod::lemma_fundamental_div_mod(ai, di);
            vstd::arithmetic::div_mod::lemma_mod_division_less_than_divisor(ai, di);
            assert(0 <= ai % di);
            assert(m0 as int == ai % di);
            if m0 == 0 {
                assert(x as int == (-(ai / di)) * di + 0) by (nonlinear_arith)
                    requires
                        ai == di * (ai / di) + ai % di,
                        ai % di == 0,
                        x as int == -ai,
                ;
                vstd::arithmetic::div_mod::lemma_fundamental_div_mod_converse_mod(
                    x as int,
                    di,
                    -(ai / di),
                    0,
                );
            } else {
                assert(x as int == (-(ai / di) - 1) * di + (di - ai % di)) by (nonlinear_arith)
                    requires
                        ai == di * (ai / di) + ai % di,
                        x as int == -ai,
                ;
                vstd::arithmetic::div_mod::lemma_fundamental_div_mod_converse_mod(
                    x as int,
                    di,
                    -(ai / di) - 1,
                    di - ai % di,
                );
            }
        }
        if m0 == 0 {
            0
        } else {
            d - (m0 as i128)
        }
    }
}

/// Truncating remainder of `x` by a non-zero `d`, as the scalar `%`
/// operation computes it: the sign follows the dividend.
fn trunc_rem_i128(x: i128, d: i128) -> (m: i128)
    requires
        i128::MIN < x,
        i128::MIN < d,
        d != 0,
    ensures
        m == x as int - trunc_div(x as int, d as int) * (d as int),
        iabs(m as int) < iabs(d as int),
{
    let xa: u128 = if x >= 0 {
        x as u128
    } else {
        (-x) as u128
    };
    let da: u128 = if d >= 0 {
        d as u128
    } else {
        (-d) as u128
    };
    let m0 = xa % da;
    proof {
        let ax = iabs(x as int);
        let ad = iabs(d as int);
        vstd::arithmetic::div_mod::lemma_fundamental_div_mod(ax, ad);
        vstd::arithmetic::div_mod::lemma_mod_division_less_than_divisor(ax, ad);
        vstd::arithmetic::div_mod::lemma_div_pos_is_pos(ax, ad);
        assert(xa as int == ax && da as int == ad);
        assert(m0 as int == ax % ad);
        assert(x as int - trunc_div(x as int, d as int) * (d as int) == (if (x as int) < 0 {
            -(ax % ad)
        } else {
            ax % ad
        })) by (nonlinear_arith)
            requires
                ax == iabs(x as int),
                ad == iabs(d as int),
                d as int != 0,
                trunc_div(x as int, d as int) == (if ((x as int) < 0) == ((d as int) < 0) {
                    ax / ad
                } else {
                    -(ax / ad)
                }),
                ax == ad * (ax / ad) + ax % ad,
                0 <= ax % ad < ad,
                iabs(x as int) == (if (x as int) < 0 {
                    -(x as int)
                } else {
                    x as int
                }),
                iabs(d as int) == (if (d as int) < 0 {
                    -(d as int)
                } else {
                    d as int
                }),
        ;
    }
    if x < 0 {
        -(m0 as i128)
    } else {
        m0 as i128
    }
}

impl Scalar {
    /// Floor of the value, as an integral scalar; always defined.
    pub fn floor(&self) -> (r: Scalar)
        ensures
            r@ == Rat::of_int(self@.floor()),
    {
        proof {
            use_type_invariant(self);
            vstd::arithmetic::div_mod::lemma_fundamental_div_mod(self.num as int, self.den as int);
            vstd::arithmetic::div_mod::lemma_mod_division_less_than_divisor(
                self.num as int,
                self.den as int,
            );
            assert(-MAX_MAG <= self.num as int / self.den as int <= MAX_MAG) by (nonlinear_arith)
                requires
                    1 <= self.den as int <= MAX_MAG as int,
                    -MAX_MAG <= self.num as int <= MAX_MAG,
                    self.num as int == self.den as int * (self.num as int / self.den as int)
                        + self.num as int % self.den as int,
                    0 <= (self.num as int % self.den as int) < (self.den as int),
            ;
        }
        let q = floor_div_i128(self.num, self.den);
        Scalar { num: q, den: 1 }
    }

    /// Truncating remainder of the value by a non-zero scalar, the exact
    /// analogue of the scalar `%` operation: one wrapping step without the
    /// reflection into the standard domain.
    pub fn rem(self, rhs: Scalar) -> (r: Scalar)
        requires
            !rhs@.is_zero(),
            self@.rem_t(rhs@).fits(),
        ensures
            r@ == self@.rem_t(rhs@),
    {
        proof {
            use_type_invariant(&self);
            use_type_invariant(&rhs);
            self.lemma_cross_products(rhs);
        }
        let x = self.num * rhs.den;
        let y = rhs.num * self.den;
        proof {
            assert(y != 0) by (nonlinear_arith)
                requires
                    y == rhs.num as int * self.den as int,
                    rhs.num as int != 0,
                    self.den as int >= 1,
            ;
        }
        let m = trunc_rem_i128(x, y);
        Scalar { num: m, den: self.den * rhs.den }
    }

    /// Normalization into the standard domain `[0, p)` of a positive period
    /// `p`: an already normalized value is returned unchanged, otherwise the
    /// value is wrapped around the period, negative inputs landing at the
    /// top of the range.
    pub fn norm_period(&self, p: &Scalar) -> (r: Scalar)
        requires
            p@.num > 0,
            self@.norm(p@).fits(),
        ensures
            r@ == self@.norm(p@),
    {
        if self.in_range_of(p) {
            *self
        } else {
            proof {
                use_type_invariant(self);
                use_type_invariant(p);
                self.lemma_cross_products(*p);
            }
            let x = self.num * p.den;
            let y = p.num * self.den;
            proof {
                assert(y >= 1) by (nonlinear_arith)
                    requires
                        y == p.num as int * self.den as int,
                        p.num as int >= 1,
                        self.den as int >= 1,
                ;
            }
            let m = floor_mod_i128(x, y);
            Scalar { num: m, den: self.den * p.den }
        }
    }
}

/// Greatest common divisor of two non-negative integers, by Euclid's
/// algorithm.
pub open spec fn gcd(a: int, b: int) -> int
    recommends
        a >= 0,
        b >= 0,
    decreases b,
    when b >= 0
{
    if b <= 0 {
        a
    } else {
        gcd(b, a % b)
    }
}

/// The greatest common divisor divides both arguments, and is positive as
/// soon as the second argument is.
proof fn lemma_gcd_divides(a: int, b: int)
    requires
        a >= 0,
        b >= 0,
    ensures
        gcd(a, b) >= 0,
        b >= 1 ==> gcd(a, b) >= 1,
        gcd(a, b) >= 1 ==> a % gcd(a, b) == 0 && b % gcd(a, b) == 0,
    decreases b,
{
    if b == 0 {
        if a >= 1 {
            vstd::arithmetic::div_mod::lemma_mod_self_0(a);
            vstd::arithmetic::div_mod::lemma_small_mod(0, a as nat);
        }
    } else {
        let r = a % b;
        vstd::arithmetic::div_mod::lemma_mod_division_less_than_divisor(a, b);
        assert(0 <= r < b);
        lemma_gcd_divides(b, r);
        let g = gcd(b, r);
        assert(gcd(a, b) == g);
        assert(g >= 1);
        vstd::arithmetic::div_mod::lemma_fundamental_div_mod(a, b);
        vstd::arithmetic::div_mod::lemma_fundamental_div_mod(b, g);
        vstd::arithmetic::div_mod::lemma_fundamental_div_mod(r, g);
        assert(a == g * ((b / g) * (a / b) + r / g)) by (nonlinear_arith)
            requires
                a == b * (a / b) + r,
                b == g * (b / g) + b % g,
                b % g == 0,
                r == g * (r / g) + r % g,
                r % g == 0,
        ;
        vstd::arithmetic::div_mod::lemma_mod_multiples_vanish((b / g) * (a / b) + r / g, 0, g);
        vstd::arithmetic::div_mod::lemma_small_mod(0, g as nat);
    }
}

/// Euclid's algorithm on machine integers.
fn gcd_u128(a: u128, b: u128) -> (g: u128)
    ensures
        g as int == gcd(a as int, b as int),
{
    let mut x = a;
    let mut y = b;
    while y != 0
        invariant
            gcd(x as int, y as int) == gcd(a as int, b as int),
        decreases y,
    {
        let t = x % y;
        x = y;
        y = t;
    }
    x
}

impl Scalar {
    /// The same value in smaller terms: numerator and denominator divided
    /// by their greatest common divisor. Reduction keeps intermediate
    /// results of long computation chains within the stored bounds.
    pub fn reduced(&self) -> (r: Scalar)
        ensures
            r@.eqv(self@),
            r@.num == self@.num / gcd(iabs(self@.num), self@.den),
            r@.den == self@.den / gcd(iabs(self@.num), self@.den),
            r@.den <= self@.den,
            iabs(r@.num) <= iabs(self@.num),
            r@.fits(),
    {
        proof {
            use_type_invariant(self);
        }
        let na: u128 = if self.num >= 0 {
            self.num as u128
        } else {
            (-self.num) as u128
        };
        let da = self.den as u128;
        let g = gcd_u128(na, da);
        proof {
            lemma_gcd_divides(na as int, da as int);
            assert(g >= 1);
            vstd::arithmetic::div_mod::lemma_fundamental_div_mod(na as int, g as int);
            vstd::arithmetic::div_mod::lemma_fundamental_div_mod(da as int, g as int);
            assert(na as int == g as int * (na as int / g as int));
            assert(da as int == g as int * (da as int / g as int));
            assert(0 <= na as int / g as int <= na as int && 1 <= da as int / g as int <= da
                as int) by (nonlinear_arith)
                requires
                    g as int >= 1,
                    na as int >= 0,
                    da as int >= 1,
                    na as int == g as int * (na as int / g as int),
                    da as int == g as int * (da as int / g as int),
            ;
        }
        let nq = na / g;
        let dq = da / g;
        let kn = nq as i128;
        let kd = dq as i128;
        proof {
            let sn = self.num as int;
            let sd = self.den as int;
            assert((if sn >= 0 {
                kn as int * sd == sn * (kd as int)
            } else {
                (-kn as int) * sd == sn * (kd as int)
            })) by (nonlinear_arith)
                requires
                    sd == g as int * (kd as int),
                    (if sn >= 0 {
                        sn == g as int * (kn as int)
                    } else {
                        -sn == g as int * (kn as int)
                    }),
                    g as int >= 1,
            ;
            if sn < 0 {
                assert(sn == g as int * (-(kn as int)) + 0) by (nonlinear_arith)
                    requires
                        -sn == g as int * (kn as int),
                ;
                vstd::arithmetic::div_mod::lemma_fundamental_div_mod_converse_div(
                    sn,
                    g as int,
                    -(kn as int),
                    0,
                );
            }
        }
        if self.num >= 0 {
            Scalar { num: kn, den: kd }
        } else {
            Scalar { num: -kn, den: kd }
        }
    }

    /// Linear rescale of the value from a unit with period `from_p` into a
    /// unit with period `to_p`, the single formula every unit conversion
    /// reduces to: `self * to_p / from_p`.
    pub fn rescale(&self, from_p: &Scalar, to_p: &Scalar) -> (r: Scalar)
        requires
            !from_p@.is_zero(),
            self@.convert_ok(from_p@, to_p@),
        ensures
            r@ == self@.convert(from_p@, to_p@),
    {
        let m = self.mul(*to_p);
        m.div(*from_p)
    }

    /// Direct linear blend from `self` toward `end` at position `pos`.
    pub fn blend(&self, end: &Scalar, pos: &Scalar) -> (r: Scalar)
        requires
            self@.lerp_ok(end@, pos@),
        ensures
            r@ == self@.lerp(end@, pos@),
    {
        let inv_pos = Scalar::one().sub(*pos);
        let left = self.mul(inv_pos);
        let right = end.mul(*pos);
        left.add(right)
    }

    /// The value lies strictly above half of `p`.
    fn above_half_of(&self, p: &Scalar) -> (r: bool)
        ensures
            r == p@.half().lt(self@),
    {
        proof {
            use_type_invariant(self);
            use_type_invariant(p);
            self.lemma_cross_products(*p);
            lemma_mul_bounds(self.num as int, MAX_MAG as int, 2 * p.den as int, 2 * MAX_MAG);
        }
        p.num * self.den < self.num * (p.den * 2)
    }

    /// The value is strictly below `other`.
    fn below(&self, other: &Scalar) -> (r: bool)
        ensures
            r == self@.lt(other@),
    {
        proof {
            use_type_invariant(self);
            use_type_invariant(other);
            self.lemma_cross_products(*other);
        }
        self.num * other.den < other.num * self.den
    }

    /// Shortest-path blend from `self` toward `end` around a circle of
    /// period `p`: if the values lie more than half a period apart, the
    /// smaller one is lifted by one period before blending.
    pub fn blend_shortest(&self, end: &Scalar, p: &Scalar, pos: &Scalar) -> (r: Scalar)
        requires
            self@.lerp_shortest_ok(end@, p@, pos@),
        ensures
            r@ == self@.lerp_shortest(end@, p@, pos@),
    {
        let dist = end.sub(*self).abs();
        if dist.above_half_of(p) {
            if end.below(self) {
                self.blend(&end.add(*p), pos)
            } else {
                self.add(*p).blend(end, pos)
            }
        } else {
            self.blend(end, pos)
        }
    }
}

impl PartialEq for Scalar {
    /// Value equality of the denoted rationals.
    fn eq(&self, other: &Scalar) -> (r: bool) {
        proof {
            use_type_invariant(self);
            use_type_invariant(other);
            self.lemma_cross_products(*other);
        }
        self.num * other.den == other.num * self.den
    }
}

impl vstd::std_specs::cmp::PartialEqSpecImpl for Scalar {
    open spec fn obeys_eq_spec() -> bool {
        true
    }

    open spec fn eq_spec(&self, other: &Scalar) -> bool {
        self@.eqv(other@)
    }
}

impl PartialOrd for Scalar {
    /// Value order of the denoted rationals.
    fn partial_cmp(&self, other: &Scalar) -> (r: Option<core::cmp::Ordering>) {
        proof {
            use_type_invariant(self);
            use_type_invariant(other);
            self.lemma_cross_products(*other);
        }
        let lhs = self.num * other.den;
        let rhs = other.num * self.den;
        if lhs < rhs {
            Some(core::cmp::Ordering::Less)
        } else if rhs < lhs {
            Some(core::cmp::Ordering::Greater)
        } else {
            Some(core::cmp::Ordering::Equal)
        }
    }
}

impl vstd::std_specs::cmp::PartialOrdSpecImpl for Scalar {
    open spec fn obeys_partial_cmp_spec() -> bool {
        true
    }

    open spec fn partial_cmp_spec(&self, other: &Scalar) -> Option<core::cmp::Ordering> {
        if self@.lt(other@) {
            Some(core::cmp::Ordering::Less)
        } else if other@.lt(self@) {
            Some(core::cmp::Ordering::Greater)
        } else {
            Some(core::cmp::Ordering::Equal)
        }
    }
}

} // verus!
