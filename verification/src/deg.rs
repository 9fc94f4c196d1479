//! Degrees: the angular unit with period 360.

use vstd::prelude::*;

use crate::angle::angle_add;
use crate::angle::angle_sub;
use crate::angle::Angle;
use crate::angle::FromAngle;
use crate::angle::Interpolate;
use crate::arc_minutes::ArcMinutes;
use crate::arc_seconds::ArcSeconds;
use crate::rational::Rat;
use crate::rational::Scalar;

verus! {

/// An angular quantity measured in degrees.
///
/// Degrees are uniquely defined from 0..360.
#[derive(Clone, Copy, Debug)]
pub struct Deg(pub Scalar);

impl Angle for Deg {
    open spec fn angle_value(self) -> Rat {
        self.0@
    }

    open spec fn unit_period() -> Rat {
        Rat { num: 360, den: 1 }
    }

    proof fn period_facts() {
    }

    fn period() -> (r: Scalar) {
        Scalar::from_int(360)
    }

    fn scalar(&self) -> (r: Scalar) {
        self.0
    }

    fn from_scalar(value: Scalar) -> (r: Deg) {
        Deg(value)
    }
}

impl<U: Angle> FromAngle<U> for Deg {

}

impl Interpolate for Deg {

}

impl Deg {
    /// Construct a new angle; equivalent to constructing the tuple struct
    /// directly, e.g. `Deg(value)`.
    pub fn new(value: Scalar) -> (r: Deg)
        ensures
            r.angle_value() == value@,
    {
        Deg(value)
    }

    /// Mixed-unit addition: `rhs` is converted into degrees first.
    pub fn add<U: Angle>(self, rhs: U) -> (r: Deg)
        requires
            rhs.angle_value().convert_ok(U::unit_period(), Deg::unit_period()),
            self.angle_value().add(
                rhs.angle_value().convert(U::unit_period(), Deg::unit_period()),
            ).fits(),
        ensures
            r.angle_value() == self.angle_value().add(
                rhs.angle_value().convert(U::unit_period(), Deg::unit_period()),
            ),
    {
        angle_add(self, rhs)
    }

    /// Mixed-unit subtraction: `rhs` is converted into degrees first.
    pub fn sub<U: Angle>(self, rhs: U) -> (r: Deg)
        requires
            rhs.angle_value().convert_ok(U::unit_period(), Deg::unit_period()),
            self.angle_value().sub(
                rhs.angle_value().convert(U::unit_period(), Deg::unit_period()),
            ).fits(),
        ensures
            r.angle_value() == self.angle_value().sub(
                rhs.angle_value().convert(U::unit_period(), Deg::unit_period()),
            ),
    {
        angle_sub(self, rhs)
    }

    /// In-place mixed-unit addition.
    pub fn add_assign<U: Angle>(&mut self, rhs: U)
        requires
            rhs.angle_value().convert_ok(U::unit_period(), Deg::unit_period()),
            old(self).angle_value().add(
                rhs.angle_value().convert(U::unit_period(), Deg::unit_period()),
            ).fits(),
        ensures
            final(self).angle_value() == old(self).angle_value().add(
                rhs.angle_value().convert(U::unit_period(), Deg::unit_period()),
            ),
    {
        *self = angle_add(*self, rhs);
    }

    /// In-place mixed-unit subtraction.
    pub fn sub_assign<U: Angle>(&mut self, rhs: U)
        requires
            rhs.angle_value().convert_ok(U::unit_period(), Deg::unit_period()),
            old(self).angle_value().sub(
                rhs.angle_value().convert(U::unit_period(), Deg::unit_period()),
            ).fits(),
        ensures
            final(self).angle_value() == old(self).angle_value().sub(
                rhs.angle_value().convert(U::unit_period(), Deg::unit_period()),
            ),
    {
        *self = angle_sub(*self, rhs);
    }
}

/// The value of an arc-minute quantity, rescaled into degrees.
pub open spec fn minutes_as_deg(m: Rat) -> Rat {
    m.convert(ArcMinutes::unit_period(), Deg::unit_period())
}

/// The value of an arc-second quantity, rescaled into degrees.
pub open spec fn seconds_as_deg(s: Rat) -> Rat {
    s.convert(ArcSeconds::unit_period(), Deg::unit_period())
}

/// The integral-degree part of a degree value: its floor.
pub open spec fn whole_deg(x: Rat) -> Rat {
    Rat::of_int(x.floor())
}

/// The fractional part of a degree value, expressed in arc-minutes.
pub open spec fn fraction_in_minutes(x: Rat) -> Rat {
    x.sub(whole_deg(x)).mul(Rat::of_int(60))
}

/// The integral arc-minutes of the fractional part of a degree value.
pub open spec fn whole_minutes(x: Rat) -> Rat {
    Rat::of_int(fraction_in_minutes(x).floor())
}

/// The remaining arc-seconds of a degree value, possibly fractional.
pub open spec fn rest_seconds(x: Rat) -> Rat {
    fraction_in_minutes(x).sub(whole_minutes(x)).mul(Rat::of_int(60))
}

impl Deg {
    /// Construct a `Deg` instance from base degrees, minutes and seconds.
    ///
    /// The opposite of `decompose`; equivalent to adding the three
    /// components together with mixed-unit addition.
    pub fn from_components(degs: Deg, mins: ArcMinutes, secs: ArcSeconds) -> (r: Deg)
        requires
            mins.angle_value().convert_ok(ArcMinutes::unit_period(), Deg::unit_period()),
            degs.angle_value().add(minutes_as_deg(mins.angle_value())).fits(),
            secs.angle_value().convert_ok(ArcSeconds::unit_period(), Deg::unit_period()),
            degs.angle_value().add(minutes_as_deg(mins.angle_value())).add(
                seconds_as_deg(secs.angle_value()),
            ).fits(),
        ensures
            r.angle_value() == degs.angle_value().add(minutes_as_deg(mins.angle_value())).add(
                seconds_as_deg(secs.angle_value()),
            ),
    {
        degs.add(mins).add(secs)
    }

    /// Split an angle in degrees into base degrees, minutes and seconds by
    /// the standard sexagesimal breakdown. If the decomposition is not
    /// perfect, the seconds carry the fractional remainder, so no precision
    /// is lost.
    pub fn decompose(self) -> (r: (Deg, ArcMinutes, ArcSeconds))
        requires
            self.angle_value().sub(whole_deg(self.angle_value())).fits(),
            fraction_in_minutes(self.angle_value()).fits(),
            fraction_in_minutes(self.angle_value()).sub(
                whole_minutes(self.angle_value()),
            ).fits(),
            rest_seconds(self.angle_value()).fits(),
        ensures
            r.0.angle_value() == whole_deg(self.angle_value()),
            r.1.angle_value() == whole_minutes(self.angle_value()),
            r.2.angle_value() == rest_seconds(self.angle_value()),
    {
        let sixty = Scalar::from_int(60);
        let degs = self.0.floor();
        let in_minutes = self.0.sub(degs).mul(sixty);
        let mins = in_minutes.floor();
        let seconds = in_minutes.sub(mins).mul(sixty);
        (Deg(degs), ArcMinutes(mins), ArcSeconds(seconds))
    }
}

impl Default for Deg {
    /// The additive identity: no rotation.
    fn default() -> (r: Deg)
        ensures
            r.angle_value() == Rat::zero(),
    {
        Deg(Scalar::zero())
    }
}

impl PartialEq for Deg {
    /// Value equality of the wrapped scalars.
    fn eq(&self, other: &Deg) -> (r: bool) {
        self.0 == other.0
    }
}

impl vstd::std_specs::cmp::PartialEqSpecImpl for Deg {
    open spec fn obeys_eq_spec() -> bool {
        true
    }

    open spec fn eq_spec(&self, other: &Deg) -> bool {
        self.0@.eqv(other.0@)
    }
}

impl PartialOrd for Deg {
    /// Value order of the wrapped scalars.
    fn partial_cmp(&self, other: &Deg) -> (r: Option<core::cmp::Ordering>) {
        self.0.partial_cmp(&other.0)
    }
}

impl vstd::std_specs::cmp::PartialOrdSpecImpl for Deg {
    open spec fn obeys_partial_cmp_spec() -> bool {
        true
    }

    open spec fn partial_cmp_spec(&self, other: &Deg) -> Option<core::cmp::Ordering> {
        if self.0@.lt(other.0@) {
            Some(core::cmp::Ordering::Less)
        } else if other.0@.lt(self.0@) {
            Some(core::cmp::Ordering::Greater)
        } else {
            Some(core::cmp::Ordering::Equal)
        }
    }
}

} // verus!
