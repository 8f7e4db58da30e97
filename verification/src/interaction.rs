//! Turning a layer by dragging a cubie: the directions a drag may take on
//! the face that was hit, and the layer turn that a drag along one of them
//! means.
use vstd::prelude::*;

use crate::cube::{face_of_layer, in_layer, MoveCommand};
use crate::geometry::{component, cross_vec, Axis, CubePos, SignedAxis, Spin};

verus! {

/// The two axes that span a face whose normal lies along `normal`.
pub open spec fn tangent_axes_spec(normal: Axis) -> (Axis, Axis) {
    match normal {
        Axis::X => (Axis::Y, Axis::Z),
        Axis::Y => (Axis::X, Axis::Z),
        Axis::Z => (Axis::X, Axis::Y),
    }
}

/// The two axes that span a face whose normal lies along `normal`.
pub fn tangent_axes(normal: Axis) -> (r: (Axis, Axis))
    ensures
        r == tangent_axes_spec(normal),
        r.0 != normal && r.1 != normal && r.0 != r.1,
{
    match normal {
        Axis::X => (Axis::Y, Axis::Z),
        Axis::Y => (Axis::X, Axis::Z),
        Axis::Z => (Axis::X, Axis::Y),
    }
}

/// The four directions a drag may take on a face whose normal lies along
/// `normal`: along the first tangent axis, against it, along the second,
/// against it.
pub fn candidate_directions(normal: Axis) -> (r: Vec<SignedAxis>)
    ensures
        ({
            let (a, b) = tangent_axes_spec(normal);
            r@ == seq![
                SignedAxis { axis: a, positive: true },
                SignedAxis { axis: a, positive: false },
                SignedAxis { axis: b, positive: true },
                SignedAxis { axis: b, positive: false },
            ]
        }),
        forall|i: int| 0 <= i < r@.len() ==> (#[trigger] r@[i]).axis != normal,
{
    let (a, b) = tangent_axes(normal);
    let mut v: Vec<SignedAxis> = Vec::new();
    v.push(SignedAxis { axis: a, positive: true });
    v.push(SignedAxis { axis: a, positive: false });
    v.push(SignedAxis { axis: b, positive: true });
    v.push(SignedAxis { axis: b, positive: false });
    v
}

/// The layer turn meant by dragging the cubie at `logical_pos`, hit on its
/// face with normal `hit_normal`, along `drag_dir`: the rotation axis is
/// `hit_normal x drag_dir`, the layer is the cubie's along that axis, and the
/// turn goes the way the cross product points.
pub fn drag_move(hit_normal: SignedAxis, drag_dir: SignedAxis, logical_pos: CubePos) -> (r:
    MoveCommand)
    requires
        hit_normal.axis != drag_dir.axis,
    ensures
        (SignedAxis {
            axis: r.axis,
            positive: r.angle == Spin::Positive,
        }).unit() == cross_vec(hit_normal.unit(), drag_dir.unit()),
        r.axis != hit_normal.axis,
        r.axis != drag_dir.axis,
        r.layer == component(logical_pos.vec(), r.axis),
        in_layer(logical_pos, r.axis, r.layer as int),
        !r.is_scramble,
        !r.is_undo,
        r.face == face_of_layer(r.axis, r.layer as int),
{
    let omega = hit_normal.cross(drag_dir);
    let angle = if omega.positive {
        Spin::Positive
    } else {
        Spin::Negative
    };
    let layer = logical_pos.coord(omega.axis);
    MoveCommand::slice(omega.axis, layer, angle, false)
}

} // verus!
