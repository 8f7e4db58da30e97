use rubiks_sim::cube::{initial_cubies, is_solved, reset_cubies, sticker_sides, turn_layer, Cubie, Face, MoveCommand};
use rubiks_sim::geometry::{rotate_logical, Axis, CubePos, Orientation, SignedAxis, Spin};

fn pos(x: i32, y: i32, z: i32) -> CubePos {
    CubePos { x, y, z }
}

fn sa(axis: Axis, positive: bool) -> SignedAxis {
    SignedAxis { axis, positive }
}

fn apply(cubies: &mut Vec<Cubie>, cmd: MoveCommand) {
    turn_layer(cubies, cmd.axis, cmd.layer, cmd.angle);
}

#[test]
fn face_axes_and_layers() {
    assert_eq!(Face::U.axis(), Axis::Y);
    assert_eq!(Face::D.axis(), Axis::Y);
    assert_eq!(Face::R.axis(), Axis::X);
    assert_eq!(Face::L.axis(), Axis::X);
    assert_eq!(Face::F.axis(), Axis::Z);
    assert_eq!(Face::B.axis(), Axis::Z);
    assert_eq!(Face::U.layer(), 1);
    assert_eq!(Face::D.layer(), -1);
    assert_eq!(Face::R.layer(), 1);
    assert_eq!(Face::L.layer(), -1);
    assert_eq!(Face::F.layer(), 1);
    assert_eq!(Face::B.layer(), -1);
}

#[test]
fn face_target_angles() {
    assert_eq!(Face::U.target_angle(false), Spin::Negative);
    assert_eq!(Face::D.target_angle(false), Spin::Positive);
    assert_eq!(Face::R.target_angle(false), Spin::Negative);
    assert_eq!(Face::L.target_angle(false), Spin::Positive);
    assert_eq!(Face::F.target_angle(false), Spin::Negative);
    assert_eq!(Face::B.target_angle(false), Spin::Positive);
    for f in [Face::U, Face::D, Face::R, Face::L, Face::F, Face::B] {
        assert_eq!(f.target_angle(true), f.target_angle(false).opposite());
    }
    assert_eq!(Spin::Positive.sign(), 1);
    assert_eq!(Spin::Negative.sign(), -1);
}

#[test]
fn from_face_builds_the_command() {
    let c = MoveCommand::from_face(Face::R, true, true);
    assert_eq!(c.axis, Axis::X);
    assert_eq!(c.layer, 1);
    assert_eq!(c.angle, Spin::Positive);
    assert!(c.is_scramble);
    assert_eq!(c.face, Some(Face::R));
}

#[test]
fn slice_names_outer_layers_only() {
    assert_eq!(MoveCommand::slice(Axis::Y, 1, Spin::Positive, false).face, Some(Face::U));
    assert_eq!(MoveCommand::slice(Axis::Y, -1, Spin::Positive, false).face, Some(Face::D));
    assert_eq!(MoveCommand::slice(Axis::X, 1, Spin::Positive, false).face, Some(Face::R));
    assert_eq!(MoveCommand::slice(Axis::X, -1, Spin::Positive, false).face, Some(Face::L));
    assert_eq!(MoveCommand::slice(Axis::Z, 1, Spin::Positive, false).face, Some(Face::F));
    assert_eq!(MoveCommand::slice(Axis::Z, -1, Spin::Negative, true).face, Some(Face::B));
    let middle = MoveCommand::slice(Axis::X, 0, Spin::Negative, false);
    assert_eq!(middle.face, None);
    assert_eq!(middle.layer, 0);
    assert_eq!(middle.angle, Spin::Negative);
}

#[test]
fn invert_turns_back_as_a_user_move() {
    let c = MoveCommand::from_face(Face::F, false, true);
    let i = c.invert();
    assert_eq!(i.axis, c.axis);
    assert_eq!(i.layer, c.layer);
    assert_eq!(i.angle, Spin::Positive);
    assert!(!i.is_scramble);
    assert_eq!(i.face, Some(Face::F));
    let back = i.invert();
    assert_eq!(back.angle, c.angle);
    assert!(i.is_undo);
    assert!(!c.is_undo);
    let prime = MoveCommand::from_face(Face::L, true, false);
    let undo = MoveCommand::from_face(Face::L, false, false).invert();
    assert_eq!(MoveCommand { is_undo: true, ..prime }, undo);
}

#[test]
fn rotate_logical_quarter_turns() {
    assert_eq!(rotate_logical(pos(0, 1, 0), Axis::X, Spin::Positive), pos(0, 0, 1));
    assert_eq!(rotate_logical(pos(0, 1, 0), Axis::X, Spin::Negative), pos(0, 0, -1));
    assert_eq!(rotate_logical(pos(1, 0, 0), Axis::Y, Spin::Positive), pos(0, 0, -1));
    assert_eq!(rotate_logical(pos(0, 0, 1), Axis::Y, Spin::Positive), pos(1, 0, 0));
    assert_eq!(rotate_logical(pos(1, 0, 0), Axis::Z, Spin::Positive), pos(0, 1, 0));
    assert_eq!(rotate_logical(pos(1, 1, 1), Axis::Z, Spin::Negative), pos(1, -1, 1));
    assert_eq!(rotate_logical(pos(7, -3, 2), Axis::X, Spin::Positive), pos(7, -2, -3));
}

#[test]
fn rotate_logical_inverse_and_four() {
    let p = pos(1, -1, 0);
    for axis in [Axis::X, Axis::Y, Axis::Z] {
        for spin in [Spin::Positive, Spin::Negative] {
            let q = rotate_logical(p, axis, spin);
            assert_eq!(rotate_logical(q, axis, spin.opposite()), p);
            let mut r = p;
            for _ in 0..4 {
                r = rotate_logical(r, axis, spin);
            }
            assert_eq!(r, p);
            assert_eq!(q.coord(axis), p.coord(axis));
        }
    }
}

#[test]
fn cross_of_unit_vectors() {
    assert_eq!(sa(Axis::X, true).cross(sa(Axis::Y, true)), sa(Axis::Z, true));
    assert_eq!(sa(Axis::Y, true).cross(sa(Axis::X, true)), sa(Axis::Z, false));
    assert_eq!(sa(Axis::Y, true).cross(sa(Axis::Z, true)), sa(Axis::X, true));
    assert_eq!(sa(Axis::Z, true).cross(sa(Axis::X, true)), sa(Axis::Y, true));
    assert_eq!(sa(Axis::X, false).cross(sa(Axis::Y, true)), sa(Axis::Z, false));
    assert_eq!(sa(Axis::Z, false).cross(sa(Axis::Y, false)), sa(Axis::X, false));
    assert_eq!(sa(Axis::X, true).negated(), sa(Axis::X, false));
}

#[test]
fn orientation_turns() {
    let id = Orientation::identity();
    assert!(id.is_identity());
    let o = id.rotated(Axis::Z, Spin::Positive);
    assert!(!o.is_identity());
    assert_eq!(o.x, sa(Axis::Y, true));
    assert_eq!(o.y, sa(Axis::X, false));
    assert_eq!(o.z, sa(Axis::Z, true));
    assert!(o.rotated(Axis::Z, Spin::Negative).is_identity());
    assert_eq!(sa(Axis::Y, false).rotated(Axis::X, Spin::Positive), sa(Axis::Z, false));
}

#[test]
fn initial_cubies_are_the_solved_grid() {
    let c = initial_cubies();
    assert_eq!(c.len(), 27);
    let mut i = 0;
    for x in -1..=1 {
        for y in -1..=1 {
            for z in -1..=1 {
                assert_eq!(c[i].initial_pos, pos(x, y, z));
                assert_eq!(c[i].logical_pos, pos(x, y, z));
                assert!(c[i].orientation.is_identity());
                i += 1;
            }
        }
    }
    assert!(is_solved(&c));
}

#[test]
fn sticker_sides_of_cubies() {
    assert_eq!(
        sticker_sides(pos(1, 1, 1)),
        vec![sa(Axis::X, true), sa(Axis::Y, true), sa(Axis::Z, true)]
    );
    assert_eq!(sticker_sides(pos(-1, 0, -1)), vec![sa(Axis::X, false), sa(Axis::Z, false)]);
    assert_eq!(sticker_sides(pos(0, -1, 0)), vec![sa(Axis::Y, false)]);
    assert_eq!(sticker_sides(pos(0, 0, 0)), vec![]);
}

#[test]
fn r_turn_moves_the_right_layer_only() {
    let mut c = initial_cubies();
    apply(&mut c, MoveCommand::from_face(Face::R, false, false));
    // cubie 26 started at (1, 1, 1); R turns (x, y, z) to (x, z, -y)
    assert_eq!(c[26].logical_pos, pos(1, 1, -1));
    assert_eq!(c[26].initial_pos, pos(1, 1, 1));
    assert!(!c[26].orientation.is_identity());
    // cubie 0 at (-1, -1, -1) stays
    assert_eq!(c[0].logical_pos, pos(-1, -1, -1));
    assert!(c[0].orientation.is_identity());
    assert!(!is_solved(&c));
}

#[test]
fn every_quarter_turn_unsolves() {
    for f in [Face::U, Face::D, Face::R, Face::L, Face::F, Face::B] {
        for inv in [false, true] {
            let mut c = initial_cubies();
            apply(&mut c, MoveCommand::from_face(f, inv, false));
            assert!(!is_solved(&c));
        }
    }
}

#[test]
fn turn_and_inverse_restore_the_cube() {
    let mut c = initial_cubies();
    let moves = [
        MoveCommand::from_face(Face::R, false, false),
        MoveCommand::from_face(Face::U, true, false),
        MoveCommand::slice(Axis::Z, 0, Spin::Positive, false),
        MoveCommand::from_face(Face::B, false, false),
    ];
    for m in moves {
        apply(&mut c, m);
    }
    assert!(!is_solved(&c));
    for m in moves.iter().rev() {
        apply(&mut c, m.invert());
    }
    assert_eq!(c, initial_cubies());
}

#[test]
fn four_quarter_turns_restore_the_cube() {
    let mut c = initial_cubies();
    apply(&mut c, MoveCommand::from_face(Face::L, false, false));
    let snapshot = c.clone();
    let m = MoveCommand::from_face(Face::F, true, false);
    for _ in 0..4 {
        apply(&mut c, m);
    }
    assert_eq!(c, snapshot);
}

#[test]
fn positions_follow_orientations() {
    let mut c = initial_cubies();
    let moves = [
        MoveCommand::from_face(Face::R, false, false),
        MoveCommand::from_face(Face::U, false, false),
        MoveCommand::from_face(Face::F, true, false),
        MoveCommand::slice(Axis::Y, 0, Spin::Negative, false),
    ];
    for m in moves {
        apply(&mut c, m);
    }
    for cubie in &c {
        let o = cubie.orientation;
        let p = cubie.initial_pos;
        let mut v = [0i32; 3];
        for (d, k) in [(o.x, p.x), (o.y, p.y), (o.z, p.z)] {
            let s = if d.positive { k } else { -k };
            let idx = match d.axis {
                Axis::X => 0,
                Axis::Y => 1,
                Axis::Z => 2,
            };
            v[idx] += s;
        }
        assert_eq!(pos(v[0], v[1], v[2]), cubie.logical_pos);
    }
    let mut seen = std::collections::HashSet::new();
    for cubie in &c {
        assert!(seen.insert((cubie.logical_pos.x, cubie.logical_pos.y, cubie.logical_pos.z)));
    }
}

#[test]
fn centres_ignore_orientation_in_solved_check() {
    let mut c = initial_cubies();
    // a face centre or the core may be rotated in place
    c[4].orientation = Orientation::identity().rotated(Axis::Y, Spin::Positive);
    assert_eq!(c[4].initial_pos, pos(-1, 0, 0));
    assert!(is_solved(&c));
    c[13].orientation = Orientation::identity().rotated(Axis::X, Spin::Positive);
    assert!(is_solved(&c));
    c[1].orientation = Orientation::identity().rotated(Axis::X, Spin::Positive);
    assert!(!is_solved(&c));
}

#[test]
fn reset_puts_every_cubie_home() {
    let mut c = initial_cubies();
    apply(&mut c, MoveCommand::from_face(Face::D, false, false));
    apply(&mut c, MoveCommand::from_face(Face::R, true, false));
    reset_cubies(&mut c);
    assert_eq!(c, initial_cubies());
}
