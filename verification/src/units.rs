//! Exact fixed-point quantities.
//!
//! Each type counts a fixed fraction of its unit. The fractions are chosen so
//! that every formula of the viewer has an exact result: a translation is a
//! tenth of a pointer delta, and an angle is a pointer delta over ten, an
//! elapsed time, or an elapsed time over one and a half.

use vstd::prelude::*;

verus! {

/// A pointer displacement in screen space, each axis in thousandths of a
/// screen unit.
#[derive(Clone, Copy, Debug, PartialEq, Eq)]
pub struct MotionDelta {
    pub x: i32,
    pub y: i32,
}

impl MotionDelta {
    /// The horizontal displacement in screen units.
    pub open spec fn dx(self) -> real {
        self.x as real / 1000real
    }

    /// The vertical displacement in screen units.
    pub open spec fn dy(self) -> real {
        self.y as real / 1000real
    }
}

/// A signed length along one world axis, in ten-thousandths of a world unit.
#[derive(Clone, Copy, Debug, PartialEq, Eq)]
pub struct Length {
    pub raw: i64,
}

impl Length {
    /// The length in world units.
    pub open spec fn units(self) -> real {
        self.raw as real / 10000real
    }

    /// The length of `units` world units, where the count can hold it.
    pub open spec fn of_units(units: real) -> Length {
        choose|length: Length| length.units() == units
    }

    /// A length is the length of its own world units, and of no others.
    pub proof fn lemma_of_units(self)
        ensures
            Length::of_units(self.units()) == self,
    {
        let chosen = Length::of_units(self.units());
        assert(chosen.units() == self.units());
        assert(chosen.raw == self.raw);
    }
}

/// A point of the world, or a displacement in it.
#[derive(Clone, Copy, Debug, PartialEq, Eq)]
pub struct Vector {
    pub x: Length,
    pub y: Length,
    pub z: Length,
}

impl Vector {
    /// The vector of the given world units along each axis.
    pub open spec fn of_units(x: real, y: real, z: real) -> Vector {
        Vector { x: Length::of_units(x), y: Length::of_units(y), z: Length::of_units(z) }
    }
}

/// A signed angle, in thirds of a nanoradian.
#[derive(Clone, Copy, Debug, PartialEq, Eq)]
pub struct Angle {
    pub raw: i128,
}

impl Angle {
    /// The angle in radians.
    pub open spec fn radians(self) -> real {
        self.raw as real / 3000000000real
    }

    /// The angle of `radians` radians, where the count can hold it.
    pub open spec fn of_radians(radians: real) -> Angle {
        choose|angle: Angle| angle.radians() == radians
    }

    /// An angle is the angle of its own radians, and of no others.
    pub proof fn lemma_of_radians(self)
        ensures
            Angle::of_radians(self.radians()) == self,
    {
        let chosen = Angle::of_radians(self.radians());
        assert(chosen.radians() == self.radians());
        assert(chosen.raw == self.raw);
    }
}

/// The time between two frames, in nanoseconds.
#[derive(Clone, Copy, Debug, PartialEq, Eq)]
pub struct ElapsedTime {
    pub nanos: u64,
}

impl ElapsedTime {
    /// The elapsed time in seconds.
    pub open spec fn seconds(self) -> real {
        self.nanos as real / 1000000000real
    }
}

} // verus!
