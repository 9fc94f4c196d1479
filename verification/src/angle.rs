//! The angle capability, the conversion protocol and interpolation.
//!
//! [`Angle`] is the common contract of the five unit types: period,
//! normalization, arc constants, inversion and arithmetic, all stated over
//! the exact rational value of the angle. [`FromAngle`] converts any angle
//! into a chosen unit by the linear rescale, and [`IntoAngle`] is derived
//! from it for every pair of units. [`Interpolate`] blends two angles,
//! either along the shortest path around the circle or strictly forward.

use vstd::prelude::*;

use crate::rational::Rat;
use crate::rational::Scalar;

verus! {

/// Base capability of every angular unit type.
///
/// A unit type wraps one [`Scalar`]; its `angle_value` is that scalar's
/// rational value and its `unit_period` is the length of one full rotation
/// measured in the unit. Every operation of the capability is specified
/// exactly over those two quantities.
pub trait Angle: Sized + Copy {
    /// The wrapped value, in this unit, as an exact rational.
    spec fn angle_value(self) -> Rat;

    /// The length of one full rotation in this unit, as an exact rational.
    spec fn unit_period() -> Rat;

    /// Each unit's period is a positive fraction in small terms.
    proof fn period_facts()
        ensures
            0 < Self::unit_period().num <= 2000000,
            1 <= Self::unit_period().den <= 1000,
    ;

    /// The length of one full rotation, as a scalar.
    fn period() -> (r: Scalar)
        ensures
            r@ == Self::unit_period(),
    ;

    /// The wrapped scalar (unitless) value, unchanged.
    fn scalar(&self) -> (r: Scalar)
        ensures
            r@ == self.angle_value(),
    ;

    /// The angle of this unit with the given scalar value.
    fn from_scalar(value: Scalar) -> (r: Self)
        ensures
            r.angle_value() == value@,
    ;

    /// Whether the angle lies in the standard domain `[0, period)`.
    fn is_normalized(&self) -> (r: bool)
        ensures
            r == self.angle_value().in_range(Self::unit_period()),
    {
        self.scalar().in_range_of(&Self::period())
    }

    /// The equivalent angle in the standard domain `[0, period)`. An angle
    /// already in the domain is returned unchanged, so normalization is
    /// idempotent; other values are wrapped around the period, negative
    /// ones landing at the top of the range.
    fn normalize(&self) -> (r: Self)
        requires
            self.angle_value().norm(Self::unit_period()).fits(),
        ensures
            r.angle_value() == self.angle_value().norm(Self::unit_period()),
    {
        proof {
            Self::period_facts();
        }
        Self::from_scalar(self.scalar().norm_period(&Self::period()))
    }

    /// One full rotation in this unit.
    fn full_turn() -> (r: Self)
        ensures
            r.angle_value() == Self::unit_period(),
    {
        Self::from_scalar(Self::period())
    }

    /// One half of a full rotation in this unit.
    fn half_turn() -> (r: Self)
        ensures
            r.angle_value() == Self::unit_period().half(),
    {
        proof {
            Self::period_facts();
        }
        Self::from_scalar(Self::period().halved())
    }

    /// One quarter of a full rotation in this unit.
    fn quarter_turn() -> (r: Self)
        ensures
            r.angle_value() == Self::unit_period().quarter(),
    {
        proof {
            Self::period_facts();
        }
        Self::from_scalar(Self::period().halved().halved())
    }

    /// The inverse of the angle: `self` rotated by half a revolution. The
    /// result is not normalized.
    fn invert(self) -> (r: Self)
        requires
            self.angle_value().add(Self::unit_period().half()).fits(),
        ensures
            r.angle_value() == self.angle_value().add(Self::unit_period().half()),
    {
        let half = Self::half_turn();
        Self::from_scalar(self.scalar().add(half.scalar()))
    }

    /// Scalar multiplication: a new, unnormalized angle in the same unit.
    fn mul(self, rhs: Scalar) -> (r: Self)
        requires
            self.angle_value().mul(rhs@).fits(),
        ensures
            r.angle_value() == self.angle_value().mul(rhs@),
    {
        Self::from_scalar(self.scalar().mul(rhs))
    }

    /// Scalar division by a non-zero scalar: a new, unnormalized angle in
    /// the same unit.
    fn div(self, rhs: Scalar) -> (r: Self)
        requires
            !rhs@.is_zero(),
            self.angle_value().div(rhs@).fits(),
        ensures
            r.angle_value() == self.angle_value().div(rhs@),
    {
        Self::from_scalar(self.scalar().div(rhs))
    }

    /// Remainder by an angle of the same unit: the scalar remainder taken
    /// directly, one wrapping step without the reflection into the standard
    /// domain.
    fn rem(self, rhs: Self) -> (r: Self)
        requires
            !rhs.angle_value().is_zero(),
            self.angle_value().rem_t(rhs.angle_value()).fits(),
        ensures
            r.angle_value() == self.angle_value().rem_t(rhs.angle_value()),
    {
        Self::from_scalar(self.scalar().rem(rhs.scalar()))
    }

    /// In-place scalar multiplication.
    fn mul_assign(&mut self, rhs: Scalar)
        requires
            old(self).angle_value().mul(rhs@).fits(),
        ensures
            final(self).angle_value() == old(self).angle_value().mul(rhs@),
    {
        *self = (*self).mul(rhs);
    }

    /// In-place scalar division by a non-zero scalar.
    fn div_assign(&mut self, rhs: Scalar)
        requires
            !rhs@.is_zero(),
            old(self).angle_value().div(rhs@).fits(),
        ensures
            final(self).angle_value() == old(self).angle_value().div(rhs@),
    {
        *self = (*self).div(rhs);
    }

    /// In-place remainder by an angle of the same unit.
    fn rem_assign(&mut self, rhs: Self)
        requires
            !rhs.angle_value().is_zero(),
            old(self).angle_value().rem_t(rhs.angle_value()).fits(),
        ensures
            final(self).angle_value() == old(self).angle_value().rem_t(rhs.angle_value()),
    {
        *self = (*self).rem(rhs);
    }

    /// The angle is exactly no rotation.
    fn is_zero(&self) -> (r: bool)
        ensures
            r == self.angle_value().is_zero(),
    {
        self.scalar().is_zero()
    }

    /// Negation: flips the sign of the scalar; does not normalize.
    fn neg(self) -> (r: Self)
        ensures
            r.angle_value() == self.angle_value().neg(),
    {
        Self::from_scalar(self.scalar().neg())
    }

    /// The additive identity of this unit: no rotation.
    fn zero() -> (r: Self)
        ensures
            r.angle_value() == Rat::zero(),
    {
        Self::from_scalar(Scalar::zero())
    }

    /// The same angle with its scalar brought to smaller terms; reduction
    /// keeps long computation chains within the stored scalar bounds.
    fn reduced(&self) -> (r: Self)
        ensures
            r.angle_value().eqv(self.angle_value()),
            r.angle_value().fits(),
    {
        Self::from_scalar(self.scalar().reduced())
    }

    /// Approximate equality within an absolute tolerance, delegated to the
    /// wrapped scalar: `|self - other| <= epsilon`.
    fn approx_eq(&self, other: &Self, epsilon: &Scalar) -> (r: bool)
        requires
            self.angle_value().sub(other.angle_value()).fits(),
        ensures
            r == self.angle_value().sub(other.angle_value()).abs().le(epsilon@),
    {
        self.scalar().approx_eq(&other.scalar(), epsilon)
    }
}

/// Construct `Self` from any angle.
///
/// The counterpart of the standard library's `From`: every unit type can
/// build itself from any other angle sharing the scalar representation, by
/// the linear rescale `value * period(Self) / period(T)`.
pub trait FromAngle<T: Angle>: Angle {
    /// Construct `Self` by converting `from` into this unit.
    fn from_angle(from: T) -> (r: Self)
        requires
            from.angle_value().convert_ok(T::unit_period(), Self::unit_period()),
        ensures
            r.angle_value() == from.angle_value().convert(
                T::unit_period(),
                Self::unit_period(),
            ),
    {
        proof {
            T::period_facts();
        }
        Self::from_scalar(from.scalar().rescale(&T::period(), &Self::period()))
    }
}

/// Convert an angle into another unit.
///
/// Provided automatically for every pair of units based on [`FromAngle`].
pub trait IntoAngle<To: Angle>: Angle {
    /// Construct an angle of the target unit from `self`.
    fn into_angle(self) -> (r: To)
        requires
            self.angle_value().convert_ok(Self::unit_period(), To::unit_period()),
        ensures
            r.angle_value() == self.angle_value().convert(
                Self::unit_period(),
                To::unit_period(),
            ),
    ;
}

impl<T: Angle, U: Angle + FromAngle<T>> IntoAngle<U> for T {
    fn into_angle(self) -> (r: U) {
        U::from_angle(self)
    }
}

/// Mixed-unit addition: the right operand is converted into the left
/// operand's unit, then the scalars are added. The left operand's unit and
/// representation win; every unit type's `add` method is this operation.
pub fn angle_add<A: FromAngle<U>, U: Angle>(lhs: A, rhs: U) -> (r: A)
    requires
        rhs.angle_value().convert_ok(U::unit_period(), A::unit_period()),
        lhs.angle_value().add(
            rhs.angle_value().convert(U::unit_period(), A::unit_period()),
        ).fits(),
    ensures
        r.angle_value() == lhs.angle_value().add(
            rhs.angle_value().convert(U::unit_period(), A::unit_period()),
        ),
{
    let end = A::from_angle(rhs);
    A::from_scalar(lhs.scalar().add(end.scalar()))
}

/// Mixed-unit subtraction: the right operand is converted into the left
/// operand's unit, then the scalars are subtracted; every unit type's `sub`
/// method is this operation.
pub fn angle_sub<A: FromAngle<U>, U: Angle>(lhs: A, rhs: U) -> (r: A)
    requires
        rhs.angle_value().convert_ok(U::unit_period(), A::unit_period()),
        lhs.angle_value().sub(
            rhs.angle_value().convert(U::unit_period(), A::unit_period()),
        ).fits(),
    ensures
        r.angle_value() == lhs.angle_value().sub(
            rhs.angle_value().convert(U::unit_period(), A::unit_period()),
        ),
{
    let end = A::from_angle(rhs);
    A::from_scalar(lhs.scalar().sub(end.scalar()))
}

/// Linear interpolation between two angles, possibly of different units.
///
/// The right operand is converted into the left operand's unit before
/// blending; `pos` is the blend position, expected in `[0, 1]` for a proper
/// interpolation but deliberately not range-checked, so positions outside
/// extrapolate linearly.
pub trait Interpolate: Angle {
    /// Blend from `self` toward `right` along the shortest of the two arcs
    /// around the circle: when the operands lie more than half a turn
    /// apart, the numerically smaller one is lifted by one full period
    /// first, so the blend crosses the periodic boundary. The output is
    /// not normalized and may exceed one full turn in that case.
    fn interpolate<U: Angle>(&self, right: &U, pos: Scalar) -> (r: Self) where
        Self: FromAngle<U>

        requires
            right.angle_value().convert_ok(U::unit_period(), Self::unit_period()),
            self.angle_value().lerp_shortest_ok(
                right.angle_value().convert(U::unit_period(), Self::unit_period()),
                Self::unit_period(),
                pos@,
            ),
        ensures
            r.angle_value() == self.angle_value().lerp_shortest(
                right.angle_value().convert(U::unit_period(), Self::unit_period()),
                Self::unit_period(),
                pos@,
            ),
    {
        let end = Self::from_angle(*right);
        Self::from_scalar(self.scalar().blend_shortest(&end.scalar(), &Self::period(), &pos))
    }

    /// Blend from `self` toward `right` in the increasing direction,
    /// regardless of arc length: the direct blend
    /// `self * (1 - pos) + right * pos` with no boundary correction.
    fn interpolate_forward<U: Angle>(&self, right: &U, pos: Scalar) -> (r: Self) where
        Self: FromAngle<U>

        requires
            right.angle_value().convert_ok(U::unit_period(), Self::unit_period()),
            self.angle_value().lerp_ok(
                right.angle_value().convert(U::unit_period(), Self::unit_period()),
                pos@,
            ),
        ensures
            r.angle_value() == self.angle_value().lerp(
                right.angle_value().convert(U::unit_period(), Self::unit_period()),
                pos@,
            ),
    {
        let end = Self::from_angle(*right);
        Self::from_scalar(self.scalar().blend(&end.scalar(), &pos))
    }
}

} // verus!
