//! Integer geometry of the cube: axes, quarter turns, cubie positions and
//! orientations.
//!
//! Positions are integer points (the centre of the cube is the origin, every
//! cubie sits at a point of `{-1, 0, 1}^3`), and a layer turn is a rotation by
//! a quarter turn about one of the three coordinate axes.  A quarter turn with
//! `Spin::Positive` is the rotation by +90 degrees about the positive axis
//! (right-hand rule), `Spin::Negative` the rotation by -90 degrees.
use vstd::prelude::*;

verus! {

/// One of the three coordinate axes.
#[derive(Clone, Copy, Debug, PartialEq, Eq, Structural)]
pub enum Axis {
    X,
    Y,
    Z,
}

/// The direction of a quarter turn about the positive direction of an axis.
#[derive(Clone, Copy, Debug, PartialEq, Eq, Structural)]
pub enum Spin {
    Positive,
    Negative,
}

/// An integer point, the logical position of a cubie.
#[derive(Clone, Copy, Debug, PartialEq, Eq, Structural)]
pub struct CubePos {
    pub x: i32,
    pub y: i32,
    pub z: i32,
}

/// A unit vector along a coordinate axis, pointing either way.
#[derive(Clone, Copy, Debug, PartialEq, Eq, Structural)]
pub struct SignedAxis {
    pub axis: Axis,
    pub positive: bool,
}

/// The rotation of a cubie, given by the images of the three unit vectors
/// `+X`, `+Y` and `+Z`.
#[derive(Clone, Copy, Debug, PartialEq, Eq, Structural)]
pub struct Orientation {
    pub x: SignedAxis,
    pub y: SignedAxis,
    pub z: SignedAxis,
}

/// The component of the integer vector `v` along `axis`.
pub open spec fn component(v: (int, int, int), axis: Axis) -> int {
    match axis {
        Axis::X => v.0,
        Axis::Y => v.1,
        Axis::Z => v.2,
    }
}

/// The image of `v` under the quarter turn `spin` about `axis`.
pub open spec fn rotate_vec(v: (int, int, int), axis: Axis, spin: Spin) -> (int, int, int) {
    match axis {
        Axis::X => match spin {
            Spin::Positive => (v.0, -v.2, v.1),
            Spin::Negative => (v.0, v.2, -v.1),
        },
        Axis::Y => match spin {
            Spin::Positive => (v.2, v.1, -v.0),
            Spin::Negative => (-v.2, v.1, v.0),
        },
        Axis::Z => match spin {
            Spin::Positive => (-v.1, v.0, v.2),
            Spin::Negative => (v.1, -v.0, v.2),
        },
    }
}

/// The sum of two integer vectors.
pub open spec fn add_vec(a: (int, int, int), b: (int, int, int)) -> (int, int, int) {
    (a.0 + b.0, a.1 + b.1, a.2 + b.2)
}

/// The cross product of two integer vectors.
pub open spec fn cross_vec(a: (int, int, int), b: (int, int, int)) -> (int, int, int) {
    (a.1 * b.2 - a.2 * b.1, a.2 * b.0 - a.0 * b.2, a.0 * b.1 - a.1 * b.0)
}

impl Spin {
    /// The quarter turn in the other direction.
    pub open spec fn opposite_spec(self) -> Spin {
        match self {
            Spin::Positive => Spin::Negative,
            Spin::Negative => Spin::Positive,
        }
    }

    /// The sign of the turn angle: `1` for `Positive`, `-1` for `Negative`.
    pub open spec fn sign_spec(self) -> int {
        match self {
            Spin::Positive => 1,
            Spin::Negative => -1,
        }
    }

    /// The quarter turn in the other direction.
    pub fn opposite(self) -> (r: Spin)
        ensures
            r == self.opposite_spec(),
    {
        match self {
            Spin::Positive => Spin::Negative,
            Spin::Negative => Spin::Positive,
        }
    }

    /// The sign of the turn angle: `1` for `Positive`, `-1` for `Negative`.
    pub fn sign(self) -> (r: i32)
        ensures
            r == self.sign_spec(),
    {
        match self {
            Spin::Positive => 1,
            Spin::Negative => -1,
        }
    }
}

impl CubePos {
    /// The point as a triple of integers.
    pub open spec fn vec(self) -> (int, int, int) {
        (self.x as int, self.y as int, self.z as int)
    }

    /// Whether every coordinate lies in `{-1, 0, 1}`.
    pub open spec fn in_grid(self) -> bool {
        &&& -1 <= self.x <= 1
        &&& -1 <= self.y <= 1
        &&& -1 <= self.z <= 1
    }

    /// Whether no coordinate is `i32::MIN`, so that each can be negated.
    pub open spec fn negatable(self) -> bool {
        &&& self.x > i32::MIN
        &&& self.y > i32::MIN
        &&& self.z > i32::MIN
    }

    /// The coordinate along `axis`.
    pub fn coord(self, axis: Axis) -> (r: i32)
        ensures
            r == component(self.vec(), axis),
    {
        match axis {
            Axis::X => self.x,
            Axis::Y => self.y,
            Axis::Z => self.z,
        }
    }

    /// How many coordinates are not zero: 3 for a corner, 2 for an edge,
    /// 1 for a face centre and 0 for the core.
    pub open spec fn nonzero_count(self) -> int {
        (if self.x != 0 { 1int } else { 0int }) + (if self.y != 0 { 1int } else { 0int }) + (
        if self.z != 0 {
            1int
        } else {
            0int
        })
    }
}

/// The quarter turn `spin` about `axis` applied to the point `pos`.
pub fn rotate_logical(pos: CubePos, axis: Axis, spin: Spin) -> (r: CubePos)
    requires
        pos.negatable(),
    ensures
        r.vec() == rotate_vec(pos.vec(), axis, spin),
        r.negatable(),
{
    match axis {
        Axis::X => match spin {
            Spin::Positive => CubePos { x: pos.x, y: -pos.z, z: pos.y },
            Spin::Negative => CubePos { x: pos.x, y: pos.z, z: -pos.y },
        },
        Axis::Y => match spin {
            Spin::Positive => CubePos { x: pos.z, y: pos.y, z: -pos.x },
            Spin::Negative => CubePos { x: -pos.z, y: pos.y, z: pos.x },
        },
        Axis::Z => match spin {
            Spin::Positive => CubePos { x: -pos.y, y: pos.x, z: pos.z },
            Spin::Negative => CubePos { x: pos.y, y: -pos.x, z: pos.z },
        },
    }
}

/// The image of the unit vector `+from` under the quarter turn `spin` about
/// `axis`, for `from` other than `axis`.
pub open spec fn quarter_image(axis: Axis, from: Axis, spin: Spin) -> SignedAxis {
    let pos = spin == Spin::Positive;
    match axis {
        Axis::X => if from == Axis::Y {
            SignedAxis { axis: Axis::Z, positive: pos }
        } else {
            SignedAxis { axis: Axis::Y, positive: !pos }
        },
        Axis::Y => if from == Axis::Z {
            SignedAxis { axis: Axis::X, positive: pos }
        } else {
            SignedAxis { axis: Axis::Z, positive: !pos }
        },
        Axis::Z => if from == Axis::X {
            SignedAxis { axis: Axis::Y, positive: pos }
        } else {
            SignedAxis { axis: Axis::X, positive: !pos }
        },
    }
}

impl SignedAxis {
    /// The unit vector as a triple of integers.
    pub open spec fn unit(self) -> (int, int, int) {
        self.scaled(1)
    }

    /// `c` times the unit vector.
    pub open spec fn scaled(self, c: int) -> (int, int, int) {
        let s = if self.positive { c } else { -c };
        match self.axis {
            Axis::X => (s, 0, 0),
            Axis::Y => (0, s, 0),
            Axis::Z => (0, 0, s),
        }
    }

    /// The image of this unit vector under the quarter turn `spin` about `axis`.
    pub open spec fn rotated_spec(self, axis: Axis, spin: Spin) -> SignedAxis {
        if self.axis == axis {
            self
        } else {
            let img = quarter_image(axis, self.axis, spin);
            SignedAxis { axis: img.axis, positive: img.positive == self.positive }
        }
    }

    /// The opposite unit vector.
    pub open spec fn negated_spec(self) -> SignedAxis {
        SignedAxis { axis: self.axis, positive: !self.positive }
    }

    /// The opposite unit vector.
    pub fn negated(self) -> (r: SignedAxis)
        ensures
            r == self.negated_spec(),
            r.unit() == (-self.unit().0, -self.unit().1, -self.unit().2),
    {
        SignedAxis { axis: self.axis, positive: !self.positive }
    }

    /// The image of this unit vector under the quarter turn `spin` about `axis`.
    pub fn rotated(self, axis: Axis, spin: Spin) -> (r: SignedAxis)
        ensures
            r == self.rotated_spec(axis, spin),
            r.unit() == rotate_vec(self.unit(), axis, spin),
    {
        if self.axis == axis {
            self
        } else {
            let pos = match spin {
                Spin::Positive => true,
                Spin::Negative => false,
            };
            let img = match axis {
                Axis::X => if self.axis == Axis::Y {
                    SignedAxis { axis: Axis::Z, positive: pos }
                } else {
                    SignedAxis { axis: Axis::Y, positive: !pos }
                },
                Axis::Y => if self.axis == Axis::Z {
                    SignedAxis { axis: Axis::X, positive: pos }
                } else {
                    SignedAxis { axis: Axis::Z, positive: !pos }
                },
                Axis::Z => if self.axis == Axis::X {
                    SignedAxis { axis: Axis::Y, positive: pos }
                } else {
                    SignedAxis { axis: Axis::X, positive: !pos }
                },
            };
            SignedAxis { axis: img.axis, positive: img.positive == self.positive }
        }
    }

    /// The cross product of two perpendicular unit vectors.
    pub fn cross(self, other: SignedAxis) -> (r: SignedAxis)
        requires
            self.axis != other.axis,
        ensures
            r.unit() == cross_vec(self.unit(), other.unit()),
            r.axis != self.axis,
            r.axis != other.axis,
    {
        let third = match self.axis {
            Axis::X => if other.axis == Axis::Y {
                Axis::Z
            } else {
                Axis::Y
            },
            Axis::Y => if other.axis == Axis::Z {
                Axis::X
            } else {
                Axis::Z
            },
            Axis::Z => if other.axis == Axis::X {
                Axis::Y
            } else {
                Axis::X
            },
        };
        // (self, other, third) is a right-handed ordering of the axes
        let cyclic = match self.axis {
            Axis::X => other.axis == Axis::Y,
            Axis::Y => other.axis == Axis::Z,
            Axis::Z => other.axis == Axis::X,
        };
        let same_sign = self.positive == other.positive;
        let r = SignedAxis { axis: third, positive: cyclic == same_sign };
        proof {
            lemma_cross_units(self, other);
        }
        r
    }
}

/// The cross product of two perpendicular unit vectors is the unit vector
/// along the third axis, positive exactly when the pair is right-handed with
/// equal signs or left-handed with opposite signs.
pub proof fn lemma_cross_units(a: SignedAxis, b: SignedAxis)
    requires
        a.axis != b.axis,
    ensures
        ({
            let third = if a.axis != Axis::X && b.axis != Axis::X {
                Axis::X
            } else if a.axis != Axis::Y && b.axis != Axis::Y {
                Axis::Y
            } else {
                Axis::Z
            };
            let cyclic = (a.axis == Axis::X && b.axis == Axis::Y) || (a.axis == Axis::Y && b.axis
                == Axis::Z) || (a.axis == Axis::Z && b.axis == Axis::X);
            cross_vec(a.unit(), b.unit()) == (SignedAxis {
                axis: third,
                positive: cyclic == (a.positive == b.positive),
            }).unit()
        }),
{
    let sa: int = if a.positive { 1 } else { -1 };
    let sb: int = if b.positive { 1 } else { -1 };
    assert(sa * sb == (if a.positive == b.positive { 1int } else { -1int })) by (nonlinear_arith)
        requires
            sa == (if a.positive { 1int } else { -1int }),
            sb == (if b.positive { 1int } else { -1int }),
    ;
    assert(sb * sa == sa * sb) by (nonlinear_arith);
    assert(sa * 0 == 0 && 0 * sb == 0 && sb * 0 == 0 && 0 * sa == 0);
}

impl Orientation {
    /// The identity rotation.
    pub open spec fn identity_spec() -> Orientation {
        Orientation {
            x: SignedAxis { axis: Axis::X, positive: true },
            y: SignedAxis { axis: Axis::Y, positive: true },
            z: SignedAxis { axis: Axis::Z, positive: true },
        }
    }

    /// The identity rotation.
    pub fn identity() -> (r: Orientation)
        ensures
            r == Self::identity_spec(),
    {
        Orientation {
            x: SignedAxis { axis: Axis::X, positive: true },
            y: SignedAxis { axis: Axis::Y, positive: true },
            z: SignedAxis { axis: Axis::Z, positive: true },
        }
    }

    /// Whether this is the identity rotation.
    pub fn is_identity(self) -> (r: bool)
        ensures
            r == (self == Self::identity_spec()),
    {
        self.x.axis == Axis::X && self.x.positive && self.y.axis == Axis::Y && self.y.positive
            && self.z.axis == Axis::Z && self.z.positive
    }

    /// The image of the integer vector `v` under this rotation.
    pub open spec fn apply(self, v: (int, int, int)) -> (int, int, int) {
        add_vec(add_vec(self.x.scaled(v.0), self.y.scaled(v.1)), self.z.scaled(v.2))
    }

    /// This rotation followed by the quarter turn `spin` about `axis`.
    pub open spec fn rotated_spec(self, axis: Axis, spin: Spin) -> Orientation {
        Orientation {
            x: self.x.rotated_spec(axis, spin),
            y: self.y.rotated_spec(axis, spin),
            z: self.z.rotated_spec(axis, spin),
        }
    }

    /// This rotation followed by the quarter turn `spin` about `axis`.
    pub fn rotated(self, axis: Axis, spin: Spin) -> (r: Orientation)
        ensures
            r == self.rotated_spec(axis, spin),
    {
        Orientation {
            x: self.x.rotated(axis, spin),
            y: self.y.rotated(axis, spin),
            z: self.z.rotated(axis, spin),
        }
    }
}

/// A quarter turn followed by the opposite quarter turn about the same axis
/// gives the point back.
pub proof fn lemma_rotate_vec_inverse(v: (int, int, int), axis: Axis, spin: Spin)
    ensures
        rotate_vec(rotate_vec(v, axis, spin), axis, spin.opposite_spec()) == v,
{
}

/// Four quarter turns in the same direction about the same axis give the
/// point back.
pub proof fn lemma_rotate_vec_four(v: (int, int, int), axis: Axis, spin: Spin)
    ensures
        rotate_vec(rotate_vec(rotate_vec(rotate_vec(v, axis, spin), axis, spin), axis, spin), axis, spin)
            == v,
{
}

/// A quarter turn keeps the coordinate along its own axis.
pub proof fn lemma_rotate_vec_keeps_axis(v: (int, int, int), axis: Axis, spin: Spin)
    ensures
        component(rotate_vec(v, axis, spin), axis) == component(v, axis),
{
}

/// A quarter turn maps the grid `{-1, 0, 1}^3` into itself.
pub proof fn lemma_rotate_vec_grid(p: CubePos, axis: Axis, spin: Spin)
    requires
        p.in_grid(),
    ensures
        ({
            let r = rotate_vec(p.vec(), axis, spin);
            &&& -1 <= r.0 <= 1
            &&& -1 <= r.1 <= 1
            &&& -1 <= r.2 <= 1
        }),
{
}

/// A quarter turn maps the sum of two vectors to the sum of their images.
pub proof fn lemma_rotate_vec_add(u: (int, int, int), w: (int, int, int), axis: Axis, spin: Spin)
    ensures
        rotate_vec(add_vec(u, w), axis, spin) == add_vec(
            rotate_vec(u, axis, spin),
            rotate_vec(w, axis, spin),
        ),
{
}

/// A quarter turn maps a multiple of a unit vector to the same multiple of
/// the rotated unit vector.
pub proof fn lemma_rotate_vec_scaled(d: SignedAxis, c: int, axis: Axis, spin: Spin)
    ensures
        rotate_vec(d.scaled(c), axis, spin) == d.rotated_spec(axis, spin).scaled(c),
{
}

/// A quarter turn followed by the opposite quarter turn gives a unit vector
/// back.
pub proof fn lemma_signed_axis_rotated_inverse(d: SignedAxis, axis: Axis, spin: Spin)
    ensures
        d.rotated_spec(axis, spin).rotated_spec(axis, spin.opposite_spec()) == d,
{
}

/// Four quarter turns in the same direction give a unit vector back.
pub proof fn lemma_signed_axis_rotated_four(d: SignedAxis, axis: Axis, spin: Spin)
    ensures
        d.rotated_spec(axis, spin).rotated_spec(axis, spin).rotated_spec(axis, spin).rotated_spec(
            axis,
            spin,
        ) == d,
{
}

/// Rotating a point by an orientation and then by a quarter turn is rotating
/// it by the turned orientation.
pub proof fn lemma_apply_rotated(o: Orientation, v: (int, int, int), axis: Axis, spin: Spin)
    ensures
        rotate_vec(o.apply(v), axis, spin) == o.rotated_spec(axis, spin).apply(v),
{
    lemma_rotate_vec_add(add_vec(o.x.scaled(v.0), o.y.scaled(v.1)), o.z.scaled(v.2), axis, spin);
    lemma_rotate_vec_add(o.x.scaled(v.0), o.y.scaled(v.1), axis, spin);
    lemma_rotate_vec_scaled(o.x, v.0, axis, spin);
    lemma_rotate_vec_scaled(o.y, v.1, axis, spin);
    lemma_rotate_vec_scaled(o.z, v.2, axis, spin);
}

} // verus!
