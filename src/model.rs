use vstd::prelude::*;

verus! {

/// A fixed-point 3-vector (thousandths).
#[derive(Clone, Copy, Debug, PartialEq, Eq, Structural)]
pub struct Vec3 {
    pub x: i64,
    pub y: i64,
    pub z: i64,
}

impl Vec3 {
    pub open spec fn at(self, i: int) -> i64 {
        if i == 0 {
            self.x
        } else if i == 1 {
            self.y
        } else {
            self.z
        }
    }

    pub open spec fn with_at(self, i: int, v: i64) -> Vec3 {
        if i == 0 {
            Vec3 { x: v, ..self }
        } else if i == 1 {
            Vec3 { y: v, ..self }
        } else {
            Vec3 { z: v, ..self }
        }
    }

    pub open spec fn within(self, bound: int) -> bool {
        -bound <= self.x <= bound && -bound <= self.y <= bound && -bound <= self.z <= bound
    }

    pub fn new(x: i64, y: i64, z: i64) -> (r: Vec3)
        ensures
            r == (Vec3 { x, y, z }),
    {
        Vec3 { x, y, z }
    }

    /// The component along axis `i`.
    pub fn get(self, i: usize) -> (r: i64)
        requires
            i < 3,
        ensures
            r == self.at(i as int),
    {
        if i == 0 {
            self.x
        } else if i == 1 {
            self.y
        } else {
            self.z
        }
    }

    /// This vector with the component along axis `i` replaced by `v`.
    pub fn set(self, i: usize, v: i64) -> (r: Vec3)
        requires
            i < 3,
        ensures
            r == self.with_at(i as int, v),
    {
        if i == 0 {
            Vec3 { x: v, ..self }
        } else if i == 1 {
            Vec3 { y: v, ..self }
        } else {
            Vec3 { z: v, ..self }
        }
    }
}

/// A rotation by `angle` (thousandths of a degree) about the world-space
/// direction `axis` (a unit vector in thousandths).
#[derive(Clone, Copy, Debug, PartialEq, Eq, Structural)]
pub struct Turn {
    pub axis: Vec3,
    pub angle: i64,
}

/// A transform as translation (thousandths of a unit), Euler rotation
/// (thousandths of a degree, applied about X, then Y, then Z), a further
/// `turn` about an axis through the model's origin, and per-axis scale
/// (thousandths): `T * turn * Rz * Ry * Rx * S`.
///
/// Rotation handles set `turn`, which states a rotation about any axis
/// exactly; a host folds it into the Euler angles once a drag has ended
/// (decomposing the composed matrix does so).
#[derive(Clone, Copy, Debug, PartialEq, Eq, Structural)]
pub struct Components {
    pub translation: Vec3,
    pub rotation: Vec3,
    pub turn: Turn,
    pub scale: Vec3,
}

/// A box in the model's local space, by its two extreme corners
/// (thousandths).
#[derive(Clone, Copy, Debug, PartialEq, Eq, Structural)]
pub struct Bounds {
    pub min: Vec3,
    pub max: Vec3,
}

} // verus!
