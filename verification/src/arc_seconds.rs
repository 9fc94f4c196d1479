//! Arc-seconds: the angular unit with period 360 * 3600, one sixtieth of
//! an arc-minute.

use vstd::prelude::*;

use crate::angle::angle_add;
use crate::angle::angle_sub;
use crate::angle::Angle;
use crate::angle::FromAngle;
use crate::angle::Interpolate;
use crate::rational::Rat;
use crate::rational::Scalar;

verus! {

/// An angular quantity measured in arc seconds, which are 1/60th of an
/// arc minute.
#[derive(Clone, Copy, Debug)]
pub struct ArcSeconds(pub Scalar);

impl Angle for ArcSeconds {
    open spec fn angle_value(self) -> Rat {
        self.0@
    }

    open spec fn unit_period() -> Rat {
        Rat { num: 1296000, den: 1 }
    }

    proof fn period_facts() {
    }

    fn period() -> (r: Scalar) {
        Scalar::from_int(1296000)
    }

    fn scalar(&self) -> (r: Scalar) {
        self.0
    }

    fn from_scalar(value: Scalar) -> (r: ArcSeconds) {
        ArcSeconds(value)
    }
}

impl<U: Angle> FromAngle<U> for ArcSeconds {

}

impl Interpolate for ArcSeconds {

}

impl ArcSeconds {
    /// Construct a new angle; equivalent to constructing the tuple struct
    /// directly, e.g. `ArcSeconds(value)`.
    pub fn new(value: Scalar) -> (r: ArcSeconds)
        ensures
            r.angle_value() == value@,
    {
        ArcSeconds(value)
    }

    /// Mixed-unit addition: `rhs` is converted into this unit first.
    pub fn add<U: Angle>(self, rhs: U) -> (r: ArcSeconds)
        requires
            rhs.angle_value().convert_ok(U::unit_period(), ArcSeconds::unit_period()),
            self.angle_value().add(
                rhs.angle_value().convert(U::unit_period(), ArcSeconds::unit_period()),
            ).fits(),
        ensures
            r.angle_value() == self.angle_value().add(
                rhs.angle_value().convert(U::unit_period(), ArcSeconds::unit_period()),
            ),
    {
        angle_add(self, rhs)
    }

    /// Mixed-unit subtraction: `rhs` is converted into this unit first.
    pub fn sub<U: Angle>(self, rhs: U) -> (r: ArcSeconds)
        requires
            rhs.angle_value().convert_ok(U::unit_period(), ArcSeconds::unit_period()),
            self.angle_value().sub(
                rhs.angle_value().convert(U::unit_period(), ArcSeconds::unit_period()),
            ).fits(),
        ensures
            r.angle_value() == self.angle_value().sub(
                rhs.angle_value().convert(U::unit_period(), ArcSeconds::unit_period()),
            ),
    {
        angle_sub(self, rhs)
    }

    /// In-place mixed-unit addition.
    pub fn add_assign<U: Angle>(&mut self, rhs: U)
        requires
            rhs.angle_value().convert_ok(U::unit_period(), ArcSeconds::unit_period()),
            old(self).angle_value().add(
                rhs.angle_value().convert(U::unit_period(), ArcSeconds::unit_period()),
            ).fits(),
        ensures
            final(self).angle_value() == old(self).angle_value().add(
                rhs.angle_value().convert(U::unit_period(), ArcSeconds::unit_period()),
            ),
    {
        *self = angle_add(*self, rhs);
    }

    /// In-place mixed-unit subtraction.
    pub fn sub_assign<U: Angle>(&mut self, rhs: U)
        requires
            rhs.angle_value().convert_ok(U::unit_period(), ArcSeconds::unit_period()),
            old(self).angle_value().sub(
                rhs.angle_value().convert(U::unit_period(), ArcSeconds::unit_period()),
            ).fits(),
        ensures
            final(self).angle_value() == old(self).angle_value().sub(
                rhs.angle_value().convert(U::unit_period(), ArcSeconds::unit_period()),
            ),
    {
        *self = angle_sub(*self, rhs);
    }
}

impl Default for ArcSeconds {
    /// The additive identity: no rotation.
    fn default() -> (r: ArcSeconds)
        ensures
            r.angle_value() == Rat::zero(),
    {
        ArcSeconds(Scalar::zero())
    }
}

impl PartialEq for ArcSeconds {
    /// Value equality of the wrapped scalars.
    fn eq(&self, other: &ArcSeconds) -> (r: bool) {
        self.0 == other.0
    }
}

impl vstd::std_specs::cmp::PartialEqSpecImpl for ArcSeconds {
    open spec fn obeys_eq_spec() -> bool {
        true
    }

    open spec fn eq_spec(&self, other: &ArcSeconds) -> bool {
        self.0@.eqv(other.0@)
    }
}

impl PartialOrd for ArcSeconds {
    /// Value order of the wrapped scalars.
    fn partial_cmp(&self, other: &ArcSeconds) -> (r: Option<core::cmp::Ordering>) {
        self.0.partial_cmp(&other.0)
    }
}

impl vstd::std_specs::cmp::PartialOrdSpecImpl for ArcSeconds {
    open spec fn obeys_partial_cmp_spec() -> bool {
        true
    }

    open spec fn partial_cmp_spec(&self, other: &ArcSeconds) -> Option<core::cmp::Ordering> {
        if self.0@.lt(other.0@) {
            Some(core::cmp::Ordering::Less)
        } else if other.0@.lt(self.0@) {
            Some(core::cmp::Ordering::Greater)
        } else {
            Some(core::cmp::Ordering::Equal)
        }
    }
}

} // verus!
