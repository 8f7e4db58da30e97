//! Faces, move commands, the 27 cubies and the layer turns applied to them.
use vstd::prelude::*;

use crate::geometry::{
    component, rotate_logical, rotate_vec, Axis, CubePos, Orientation, SignedAxis, Spin,
};

verus! {

/// One of the six outer faces, in speed-cubing notation.
#[derive(Clone, Copy, Debug, PartialEq, Eq, Structural)]
pub enum Face {
    U,
    D,
    R,
    L,
    F,
    B,
}

/// The axis about which the face turns.
pub open spec fn face_axis(face: Face) -> Axis {
    match face {
        Face::U | Face::D => Axis::Y,
        Face::R | Face::L => Axis::X,
        Face::F | Face::B => Axis::Z,
    }
}

/// The layer of the face along its axis: `1` for U, R, F and `-1` for D, L, B.
pub open spec fn face_layer(face: Face) -> int {
    match face {
        Face::U | Face::R | Face::F => 1,
        Face::D | Face::L | Face::B => -1,
    }
}

/// The quarter turn of a face: clockwise as seen from outside that face, or
/// counter-clockwise when `inverse`.  Clockwise is the negative turn about the
/// axis for U, R, F and the positive one for D, L, B.
pub open spec fn face_turn(face: Face, inverse: bool) -> Spin {
    let clockwise = match face {
        Face::U | Face::R | Face::F => Spin::Negative,
        Face::D | Face::L | Face::B => Spin::Positive,
    };
    if inverse {
        clockwise.opposite_spec()
    } else {
        clockwise
    }
}

/// The face whose layer is `layer` along `axis`, if the layer is an outer one.
pub open spec fn face_of_layer(axis: Axis, layer: int) -> Option<Face> {
    if layer == 1 {
        Some(
            match axis {
                Axis::Y => Face::U,
                Axis::X => Face::R,
                Axis::Z => Face::F,
            },
        )
    } else if layer == -1 {
        Some(
            match axis {
                Axis::Y => Face::D,
                Axis::X => Face::L,
                Axis::Z => Face::B,
            },
        )
    } else {
        None
    }
}

impl Face {
    /// The axis about which the face turns.
    pub fn axis(&self) -> (r: Axis)
        ensures
            r == face_axis(*self),
    {
        match self {
            Face::U | Face::D => Axis::Y,
            Face::R | Face::L => Axis::X,
            Face::F | Face::B => Axis::Z,
        }
    }

    /// The layer of the face along its axis.
    pub fn layer(&self) -> (r: i32)
        ensures
            r == face_layer(*self),
    {
        match self {
            Face::U => 1,
            Face::D => -1,
            Face::R => 1,
            Face::L => -1,
            Face::F => 1,
            Face::B => -1,
        }
    }

    /// The quarter turn of the face, clockwise unless `inverse`.
    pub fn target_angle(&self, inverse: bool) -> (r: Spin)
        ensures
            r == face_turn(*self, inverse),
    {
        match (self, inverse) {
            (Face::U, false) => Spin::Negative,
            (Face::U, true) => Spin::Positive,
            (Face::D, false) => Spin::Positive,
            (Face::D, true) => Spin::Negative,
            (Face::R, false) => Spin::Negative,
            (Face::R, true) => Spin::Positive,
            (Face::L, false) => Spin::Positive,
            (Face::L, true) => Spin::Negative,
            (Face::F, false) => Spin::Negative,
            (Face::F, true) => Spin::Positive,
            (Face::B, false) => Spin::Positive,
            (Face::B, true) => Spin::Negative,
        }
    }
}

/// A layer turn: the axis, the layer along it, the quarter turn, whether the
/// turn belongs to a scramble, whether it undoes an earlier turn, and the
/// face when the layer is an outer one.
#[derive(Clone, Copy, Debug, PartialEq, Eq, Structural)]
pub struct MoveCommand {
    pub axis: Axis,
    pub layer: i32,
    pub angle: Spin,
    pub is_scramble: bool,
    pub is_undo: bool,
    pub face: Option<Face>,
}

/// The command that turns `face`.
pub open spec fn face_command(face: Face, inverse: bool, is_scramble: bool) -> MoveCommand {
    MoveCommand {
        axis: face_axis(face),
        layer: face_layer(face) as i32,
        angle: face_turn(face, inverse),
        is_scramble,
        is_undo: false,
        face: Some(face),
    }
}

/// The command that undoes `cmd`: the same layer turned back, never part of
/// a scramble, marked as an undo.
pub open spec fn inverse_command(cmd: MoveCommand) -> MoveCommand {
    MoveCommand {
        axis: cmd.axis,
        layer: cmd.layer,
        angle: cmd.angle.opposite_spec(),
        is_scramble: false,
        is_undo: true,
        face: cmd.face,
    }
}

impl MoveCommand {
    /// The command that turns `face`, clockwise unless `inverse`.
    pub fn from_face(face: Face, inverse: bool, is_scramble: bool) -> (r: MoveCommand)
        ensures
            r == face_command(face, inverse, is_scramble),
    {
        MoveCommand {
            axis: face.axis(),
            layer: face.layer(),
            angle: face.target_angle(inverse),
            is_scramble,
            is_undo: false,
            face: Some(face),
        }
    }

    /// The command that turns the layer `layer` along `axis`; it names a face
    /// when the layer is an outer one.
    pub fn slice(axis: Axis, layer: i32, angle: Spin, is_scramble: bool) -> (r: MoveCommand)
        ensures
            r == (MoveCommand {
                axis,
                layer,
                angle,
                is_scramble,
                is_undo: false,
                face: face_of_layer(axis, layer as int),
            }),
    {
        let face = if axis == Axis::Y && layer == 1 {
            Some(Face::U)
        } else if axis == Axis::Y && layer == -1 {
            Some(Face::D)
        } else if axis == Axis::X && layer == 1 {
            Some(Face::R)
        } else if axis == Axis::X && layer == -1 {
            Some(Face::L)
        } else if axis == Axis::Z && layer == 1 {
            Some(Face::F)
        } else if axis == Axis::Z && layer == -1 {
            Some(Face::B)
        } else {
            None
        };
        MoveCommand { axis, layer, angle, is_scramble, is_undo: false, face }
    }

    /// The command that undoes this one.
    pub fn invert(&self) -> (r: MoveCommand)
        ensures
            r == inverse_command(*self),
    {
        MoveCommand {
            axis: self.axis,
            layer: self.layer,
            angle: self.angle.opposite(),
            is_scramble: false,
            is_undo: true,
            face: self.face,
        }
    }
}

/// One of the 27 small cubes: where it is now, where it belongs, and how it
/// is rotated relative to its solved placement.
#[derive(Clone, Copy, Debug, PartialEq, Eq, Structural)]
pub struct Cubie {
    pub logical_pos: CubePos,
    pub initial_pos: CubePos,
    pub orientation: Orientation,
}

/// The point with the given coordinates.
pub open spec fn pos_of(v: (int, int, int)) -> CubePos {
    CubePos { x: v.0 as i32, y: v.1 as i32, z: v.2 as i32 }
}

/// The solved place of the cubie with index `i`: the cubies are numbered
/// with `x` varying slowest and `z` fastest, each from -1 to 1.
pub open spec fn grid_pos(i: int) -> CubePos {
    CubePos { x: (i / 9 - 1) as i32, y: ((i / 3) % 3 - 1) as i32, z: (i % 3 - 1) as i32 }
}

/// Whether `pos` lies in the layer `layer` along `axis`.
pub open spec fn in_layer(pos: CubePos, axis: Axis, layer: int) -> bool {
    component(pos.vec(), axis) == layer
}

/// The cubie after the quarter turn `spin` of the layer `layer` along `axis`:
/// a cubie of that layer is moved and rotated, any other stays.
pub open spec fn turn_cubie(c: Cubie, axis: Axis, layer: int, spin: Spin) -> Cubie {
    if in_layer(c.logical_pos, axis, layer) {
        Cubie {
            logical_pos: pos_of(rotate_vec(c.logical_pos.vec(), axis, spin)),
            initial_pos: c.initial_pos,
            orientation: c.orientation.rotated_spec(axis, spin),
        }
    } else {
        c
    }
}

/// The cube after a layer turn.
pub open spec fn turn_layer_spec(s: Seq<Cubie>, axis: Axis, layer: int, spin: Spin) -> Seq<
    Cubie,
> {
    Seq::new(s.len(), |i: int| turn_cubie(s[i], axis, layer, spin))
}

/// The cube after the turn that `cmd` describes.
pub open spec fn apply_command(s: Seq<Cubie>, cmd: MoveCommand) -> Seq<Cubie> {
    turn_layer_spec(s, cmd.axis, cmd.layer as int, cmd.angle)
}

/// The cube after the commands `cmds`, applied in order.
pub open spec fn apply_commands(s: Seq<Cubie>, cmds: Seq<MoveCommand>) -> Seq<Cubie>
    decreases cmds.len(),
{
    if cmds.len() == 0 {
        s
    } else {
        apply_command(apply_commands(s, cmds.drop_last()), cmds.last())
    }
}

/// The solved cube: every cubie in its place, unrotated.
pub open spec fn solved_cube() -> Seq<Cubie> {
    Seq::new(
        27,
        |i: int|
            Cubie {
                logical_pos: grid_pos(i),
                initial_pos: grid_pos(i),
                orientation: Orientation::identity_spec(),
            },
    )
}

/// A well-formed cube: 27 cubies numbered by their solved places, every
/// cubie at a grid point, no two at the same point, and every position the
/// cubie's rotation applied to its solved place.
pub open spec fn cube_wf(s: Seq<Cubie>) -> bool {
    &&& s.len() == 27
    &&& forall|i: int| 0 <= i < 27 ==> #[trigger] s[i].initial_pos == grid_pos(i)
    &&& forall|i: int| 0 <= i < 27 ==> (#[trigger] s[i]).logical_pos.in_grid()
    &&& forall|i: int|
        0 <= i < 27 ==> (#[trigger] s[i]).logical_pos.vec() == s[i].orientation.apply(
            s[i].initial_pos.vec(),
        )
    &&& forall|i: int, j: int|
        0 <= i < 27 && 0 <= j < 27 && i != j ==> (#[trigger] s[i]).logical_pos != (#[trigger] s[
            j]).logical_pos
}

/// Whether every coordinate of every cubie can be negated.
pub open spec fn cubies_negatable(s: Seq<Cubie>) -> bool {
    forall|i: int| 0 <= i < s.len() ==> (#[trigger] s[i]).logical_pos.negatable()
}

/// The test for a solved cube: corners and edges (two or more non-zero
/// coordinates in their solved place) must be back in place and unrotated,
/// face centres and the core only back in place.
pub open spec fn is_solved_spec(s: Seq<Cubie>) -> bool {
    forall|i: int|
        0 <= i < s.len() ==> {
            &&& (#[trigger] s[i]).logical_pos == s[i].initial_pos
            &&& s[i].initial_pos.nonzero_count() >= 2 ==> s[i].orientation
                == Orientation::identity_spec()
        }
}

/// The cubie put back in its solved place, unrotated.
pub open spec fn reset_cubie(c: Cubie) -> Cubie {
    Cubie {
        logical_pos: c.initial_pos,
        initial_pos: c.initial_pos,
        orientation: Orientation::identity_spec(),
    }
}

/// The 27 cubies of a solved cube, numbered by their solved places.
pub fn initial_cubies() -> (r: Vec<Cubie>)
    ensures
        r@ == solved_cube(),
        cube_wf(r@),
{
    let mut v: Vec<Cubie> = Vec::new();
    let mut x: i32 = -1;
    while x <= 1
        invariant
            -1 <= x <= 2,
            v@.len() == 9 * (x + 1),
            forall|i: int| 0 <= i < v@.len() ==> #[trigger] v@[i] == solved_cube()[i],
        decreases 2 - x,
    {
        let mut y: i32 = -1;
        while y <= 1
            invariant
                -1 <= x <= 1,
                -1 <= y <= 2,
                v@.len() == 9 * (x + 1) + 3 * (y + 1),
                forall|i: int| 0 <= i < v@.len() ==> #[trigger] v@[i] == solved_cube()[i],
            decreases 2 - y,
        {
            let mut z: i32 = -1;
            while z <= 1
                invariant
                    -1 <= x <= 1,
                    -1 <= y <= 1,
                    -1 <= z <= 2,
                    v@.len() == 9 * (x + 1) + 3 * (y + 1) + (z + 1),
                    forall|i: int| 0 <= i < v@.len() ==> #[trigger] v@[i] == solved_cube()[i],
                decreases 2 - z,
            {
                let pos = CubePos { x, y, z };
                let ghost k = v@.len() as int;
                assert(grid_pos(k) == pos) by {
                    assert(k == 9 * (x + 1) + 3 * (y + 1) + (z + 1));
                    assert(k / 9 == x + 1);
                    assert(k / 3 == 3 * (x + 1) + (y + 1));
                    assert((k / 3) % 3 == y + 1);
                    assert(k % 3 == z + 1);
                }
                v.push(Cubie { logical_pos: pos, initial_pos: pos, orientation: Orientation::identity() });
                z = z + 1;
            }
            y = y + 1;
        }
        x = x + 1;
    }
    assert(v@ =~= solved_cube());
    proof {
        lemma_solved_cube_wf();
    }
    v
}

/// The sticker on one side of a cubie, if the cubie lies in the outer layer
/// on that side.
pub open spec fn side_sticker(coord: int, axis: Axis) -> Seq<SignedAxis> {
    if coord == 1 {
        seq![SignedAxis { axis, positive: true }]
    } else if coord == -1 {
        seq![SignedAxis { axis, positive: false }]
    } else {
        Seq::empty()
    }
}

/// The outward directions of the stickers of the cubie at `pos`: one per
/// outer layer that holds it, in the order of the axes X, Y, Z.
pub fn sticker_sides(pos: CubePos) -> (r: Vec<SignedAxis>)
    ensures
        r@ == side_sticker(pos.x as int, Axis::X) + side_sticker(pos.y as int, Axis::Y)
            + side_sticker(pos.z as int, Axis::Z),
{
    let mut v: Vec<SignedAxis> = Vec::new();
    if pos.x == 1 {
        v.push(SignedAxis { axis: Axis::X, positive: true });
    } else if pos.x == -1 {
        v.push(SignedAxis { axis: Axis::X, positive: false });
    }
    let ghost vx = v@;
    if pos.y == 1 {
        v.push(SignedAxis { axis: Axis::Y, positive: true });
    } else if pos.y == -1 {
        v.push(SignedAxis { axis: Axis::Y, positive: false });
    }
    let ghost vy = v@;
    if pos.z == 1 {
        v.push(SignedAxis { axis: Axis::Z, positive: true });
    } else if pos.z == -1 {
        v.push(SignedAxis { axis: Axis::Z, positive: false });
    }
    assert(vx =~= side_sticker(pos.x as int, Axis::X));
    assert(vy =~= side_sticker(pos.x as int, Axis::X) + side_sticker(pos.y as int, Axis::Y));
    assert(v@ =~= side_sticker(pos.x as int, Axis::X) + side_sticker(pos.y as int, Axis::Y)
        + side_sticker(pos.z as int, Axis::Z));
    v
}

/// The solved cube is well formed.
pub proof fn lemma_solved_cube_wf()
    ensures
        cube_wf(solved_cube()),
{
    let s = solved_cube();
    assert forall|i: int, j: int|
        0 <= i < 27 && 0 <= j < 27 && i != j implies (#[trigger] s[i]).logical_pos != (#[trigger] s[
        j]).logical_pos by {
        lemma_grid_pos_injective(i, j);
    }
    assert forall|i: int| 0 <= i < 27 implies (#[trigger] s[i]).logical_pos.in_grid() by {
        lemma_grid_pos_in_grid(i);
    }
}

/// The solved place of a cubie is a grid point.
pub proof fn lemma_grid_pos_in_grid(i: int)
    requires
        0 <= i < 27,
    ensures
        grid_pos(i).in_grid(),
        grid_pos(i).vec() == (i / 9 - 1, (i / 3) % 3 - 1, i % 3 - 1),
{
}

/// Different cubies have different solved places.
pub proof fn lemma_grid_pos_injective(i: int, j: int)
    requires
        0 <= i < 27,
        0 <= j < 27,
        i != j,
    ensures
        grid_pos(i) != grid_pos(j),
{
    lemma_grid_pos_in_grid(i);
    lemma_grid_pos_in_grid(j);
    assert(i == 9 * (i / 9) + 3 * ((i / 3) % 3) + i % 3);
    assert(j == 9 * (j / 9) + 3 * ((j / 3) % 3) + j % 3);
}

/// A point is rebuilt from its coordinates.
pub proof fn lemma_pos_of_vec(p: CubePos)
    ensures
        pos_of(p.vec()) == p,
{
}

/// The image of a negatable point under a quarter turn is a negatable point
/// with exactly the rotated coordinates.
pub proof fn lemma_rotated_pos(p: CubePos, axis: Axis, spin: Spin)
    requires
        p.negatable(),
    ensures
        pos_of(rotate_vec(p.vec(), axis, spin)).vec() == rotate_vec(p.vec(), axis, spin),
        pos_of(rotate_vec(p.vec(), axis, spin)).negatable(),
{
}

/// A turn of a layer followed by the opposite turn of the same layer gives
/// every cubie back.
pub proof fn lemma_turn_cubie_inverse(c: Cubie, axis: Axis, layer: int, spin: Spin)
    requires
        c.logical_pos.negatable(),
    ensures
        turn_cubie(turn_cubie(c, axis, layer, spin), axis, layer, spin.opposite_spec()) == c,
{
    if in_layer(c.logical_pos, axis, layer) {
        let v = c.logical_pos.vec();
        lemma_rotated_pos(c.logical_pos, axis, spin);
        crate::geometry::lemma_rotate_vec_keeps_axis(v, axis, spin);
        crate::geometry::lemma_rotate_vec_inverse(v, axis, spin);
        crate::geometry::lemma_signed_axis_rotated_inverse(c.orientation.x, axis, spin);
        crate::geometry::lemma_signed_axis_rotated_inverse(c.orientation.y, axis, spin);
        crate::geometry::lemma_signed_axis_rotated_inverse(c.orientation.z, axis, spin);
        lemma_pos_of_vec(c.logical_pos);
    }
}

/// Four equal quarter turns of a layer give every cubie back.
pub proof fn lemma_turn_cubie_four(c: Cubie, axis: Axis, layer: int, spin: Spin)
    requires
        c.logical_pos.negatable(),
    ensures
        turn_cubie(
            turn_cubie(turn_cubie(turn_cubie(c, axis, layer, spin), axis, layer, spin), axis, layer, spin),
            axis,
            layer,
            spin,
        ) == c,
{
    if in_layer(c.logical_pos, axis, layer) {
        let v = c.logical_pos.vec();
        let v1 = rotate_vec(v, axis, spin);
        let v2 = rotate_vec(v1, axis, spin);
        let v3 = rotate_vec(v2, axis, spin);
        lemma_rotated_pos(c.logical_pos, axis, spin);
        let c1 = turn_cubie(c, axis, layer, spin);
        crate::geometry::lemma_rotate_vec_keeps_axis(v, axis, spin);
        lemma_rotated_pos(c1.logical_pos, axis, spin);
        let c2 = turn_cubie(c1, axis, layer, spin);
        crate::geometry::lemma_rotate_vec_keeps_axis(v1, axis, spin);
        lemma_rotated_pos(c2.logical_pos, axis, spin);
        let c3 = turn_cubie(c2, axis, layer, spin);
        crate::geometry::lemma_rotate_vec_keeps_axis(v2, axis, spin);
        lemma_rotated_pos(c3.logical_pos, axis, spin);
        crate::geometry::lemma_rotate_vec_four(v, axis, spin);
        crate::geometry::lemma_signed_axis_rotated_four(c.orientation.x, axis, spin);
        crate::geometry::lemma_signed_axis_rotated_four(c.orientation.y, axis, spin);
        crate::geometry::lemma_signed_axis_rotated_four(c.orientation.z, axis, spin);
        lemma_pos_of_vec(c.logical_pos);
    }
}

/// A layer turn keeps a cube well formed.
pub proof fn lemma_turn_keeps_wf(s: Seq<Cubie>, axis: Axis, layer: int, spin: Spin)
    requires
        cube_wf(s),
    ensures
        cube_wf(turn_layer_spec(s, axis, layer, spin)),
{
    let t = turn_layer_spec(s, axis, layer, spin);
    assert forall|i: int| 0 <= i < 27 implies (#[trigger] t[i]).logical_pos.in_grid() && t[i].logical_pos.vec()
        == t[i].orientation.apply(t[i].initial_pos.vec()) by {
        let c = s[i];
        if in_layer(c.logical_pos, axis, layer) {
            lemma_rotated_pos(c.logical_pos, axis, spin);
            crate::geometry::lemma_rotate_vec_grid(c.logical_pos, axis, spin);
            crate::geometry::lemma_apply_rotated(c.orientation, c.initial_pos.vec(), axis, spin);
        }
    }
    assert forall|i: int, j: int|
        0 <= i < 27 && 0 <= j < 27 && i != j implies (#[trigger] t[i]).logical_pos != (#[trigger] t[
        j]).logical_pos by {
        let ci = s[i];
        let cj = s[j];
        assert(ci.logical_pos != cj.logical_pos);
        let ini = in_layer(ci.logical_pos, axis, layer);
        let inj = in_layer(cj.logical_pos, axis, layer);
        if ini {
            lemma_rotated_pos(ci.logical_pos, axis, spin);
            crate::geometry::lemma_rotate_vec_keeps_axis(ci.logical_pos.vec(), axis, spin);
            crate::geometry::lemma_rotate_vec_inverse(ci.logical_pos.vec(), axis, spin);
        }
        if inj {
            lemma_rotated_pos(cj.logical_pos, axis, spin);
            crate::geometry::lemma_rotate_vec_keeps_axis(cj.logical_pos.vec(), axis, spin);
            crate::geometry::lemma_rotate_vec_inverse(cj.logical_pos.vec(), axis, spin);
        }
        if ini && inj {
            if t[i].logical_pos == t[j].logical_pos {
                assert(t[i].logical_pos.vec() == t[j].logical_pos.vec());
                assert(ci.logical_pos.vec() == cj.logical_pos.vec());
                lemma_pos_of_vec(ci.logical_pos);
                lemma_pos_of_vec(cj.logical_pos);
            }
        } else if ini && !inj {
            assert(component(t[i].logical_pos.vec(), axis) == layer);
            assert(component(t[j].logical_pos.vec(), axis) != layer);
        } else if !ini && inj {
            assert(component(t[j].logical_pos.vec(), axis) == layer);
            assert(component(t[i].logical_pos.vec(), axis) != layer);
        }
    }
}

/// A well-formed cube has negatable coordinates everywhere.
pub proof fn lemma_wf_negatable(s: Seq<Cubie>)
    requires
        cube_wf(s),
    ensures
        cubies_negatable(s),
{
    assert forall|i: int| 0 <= i < s.len() implies (#[trigger] s[i]).logical_pos.negatable() by {
        assert(s[i].logical_pos.in_grid());
    }
}

/// Turns the layer `layer` along `axis` by the quarter turn `spin`.
pub fn turn_layer(cubies: &mut Vec<Cubie>, axis: Axis, layer: i32, spin: Spin)
    requires
        cubies_negatable(old(cubies)@),
    ensures
        final(cubies)@ == turn_layer_spec(old(cubies)@, axis, layer as int, spin),
        cubies_negatable(final(cubies)@),
{
    let n = cubies.len();
    let mut i: usize = 0;
    while i < n
        invariant
            n == cubies@.len(),
            n == old(cubies)@.len(),
            i <= n,
            cubies_negatable(old(cubies)@),
            forall|j: int|
                0 <= j < i ==> #[trigger] cubies@[j] == turn_cubie(
                    old(cubies)@[j],
                    axis,
                    layer as int,
                    spin,
                ),
            forall|j: int| i <= j < n ==> #[trigger] cubies@[j] == old(cubies)@[j],
            forall|j: int| 0 <= j < n ==> (#[trigger] cubies@[j]).logical_pos.negatable(),
        decreases n - i,
    {
        let c = cubies[i];
        assert(c == old(cubies)@[i as int]);
        if c.logical_pos.coord(axis) == layer {
            let p = rotate_logical(c.logical_pos, axis, spin);
            let o = c.orientation.rotated(axis, spin);
            let nc = Cubie { logical_pos: p, initial_pos: c.initial_pos, orientation: o };
            assert(p == pos_of(p.vec()));
            cubies.set(i, nc);
        }
        i = i + 1;
    }
    assert(cubies@ =~= turn_layer_spec(old(cubies)@, axis, layer as int, spin));
}

/// Whether the cube is solved: see `is_solved_spec`.
pub fn is_solved(cubies: &Vec<Cubie>) -> (r: bool)
    ensures
        r == is_solved_spec(cubies@),
{
    let n = cubies.len();
    let mut i: usize = 0;
    while i < n
        invariant
            n == cubies@.len(),
            i <= n,
            forall|j: int|
                0 <= j < i ==> {
                    &&& (#[trigger] cubies@[j]).logical_pos == cubies@[j].initial_pos
                    &&& cubies@[j].initial_pos.nonzero_count() >= 2 ==> cubies@[j].orientation
                        == Orientation::identity_spec()
                },
        decreases n - i,
    {
        let c = cubies[i];
        let p = c.initial_pos;
        let nonzero: u32 = (if p.x != 0 { 1u32 } else { 0u32 }) + (if p.y != 0 { 1u32 } else { 0u32 }) + (
        if p.z != 0 {
            1u32
        } else {
            0u32
        });
        if nonzero >= 2 {
            if !(c.logical_pos == c.initial_pos && c.orientation.is_identity()) {
                return false;
            }
        } else {
            if !(c.logical_pos == c.initial_pos) {
                return false;
            }
        }
        i = i + 1;
    }
    true
}

/// Puts every cubie back in its solved place, unrotated.
pub fn reset_cubies(cubies: &mut Vec<Cubie>)
    ensures
        final(cubies)@ == Seq::new(old(cubies)@.len(), |i: int| reset_cubie(old(cubies)@[i])),
{
    let n = cubies.len();
    let mut i: usize = 0;
    while i < n
        invariant
            n == cubies@.len(),
            n == old(cubies)@.len(),
            i <= n,
            forall|j: int| 0 <= j < i ==> #[trigger] cubies@[j] == reset_cubie(old(cubies)@[j]),
            forall|j: int| i <= j < n ==> #[trigger] cubies@[j] == old(cubies)@[j],
        decreases n - i,
    {
        let c = cubies[i];
        cubies.set(
            i,
            Cubie {
                logical_pos: c.initial_pos,
                initial_pos: c.initial_pos,
                orientation: Orientation::identity(),
            },
        );
        i = i + 1;
    }
    assert(cubies@ =~= Seq::new(old(cubies)@.len(), |i: int| reset_cubie(old(cubies)@[i])));
}

} // verus!
