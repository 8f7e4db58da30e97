use rubiks_sim::cube::{initial_cubies, is_solved, Face, MoveCommand};
use rubiks_sim::game::{
    begin_next_move, check_face_keys, complete_rotation, keyboard_input_system, layer_cubies,
    start_rotation, trigger_reset, trigger_scramble, trigger_undo, GameTimerState, KeyboardInput,
    MoveHistory, MoveQueue, RotationState, ScrambleInfo,
};
use rubiks_sim::geometry::{Axis, Spin};

fn scrambled_stopped() -> GameTimerState {
    GameTimerState { is_scrambled: true, is_running: false, elapsed_ms: 0, move_count: 0, is_solved: false }
}

fn no_keys() -> KeyboardInput {
    KeyboardInput {
        shift: false,
        u: false,
        d: false,
        r: false,
        l: false,
        f: false,
        b: false,
        scramble: false,
        reset: false,
        undo: false,
    }
}

#[test]
fn begin_on_empty_queue_does_nothing() {
    let mut q = MoveQueue::new();
    let mut st = RotationState::new();
    let mut t = GameTimerState::new();
    let c = initial_cubies();
    assert_eq!(begin_next_move(&mut q, &mut st, &mut t, &c), None);
    assert!(st.anim.is_none());
    assert_eq!(t, GameTimerState::new());
}

#[test]
fn begin_waits_for_the_running_turn() {
    let mut q = MoveQueue::new();
    let mut st = RotationState::new();
    let mut t = GameTimerState::new();
    let c = initial_cubies();
    q.queue.push_back(MoveCommand::from_face(Face::U, false, false));
    q.queue.push_back(MoveCommand::from_face(Face::F, false, false));
    assert_eq!(begin_next_move(&mut q, &mut st, &mut t, &c), Some(MoveCommand::from_face(Face::U, false, false)));
    assert_eq!(q.queue.len(), 1);
    assert_eq!(begin_next_move(&mut q, &mut st, &mut t, &c), None);
    assert_eq!(q.queue.len(), 1);
    let anim = st.anim.as_ref().unwrap();
    assert_eq!(anim.current_cmd.face, Some(Face::U));
    assert_eq!(anim.axis, Axis::Y);
    assert_eq!(anim.target_angle, Spin::Negative);
    assert_eq!(anim.entries.len(), 9);
    for e in &anim.entries {
        assert_eq!(e.logical_pos.y, 1);
        assert_eq!(c[e.cubie].logical_pos, e.logical_pos);
    }
}

#[test]
fn layer_cubies_lists_the_layer_in_order() {
    let c = initial_cubies();
    let e = layer_cubies(&c, Axis::X, -1);
    let idx: Vec<usize> = e.iter().map(|a| a.cubie).collect();
    assert_eq!(idx, vec![0, 1, 2, 3, 4, 5, 6, 7, 8]);
    let mid = layer_cubies(&c, Axis::Z, 0);
    let idx: Vec<usize> = mid.iter().map(|a| a.cubie).collect();
    assert_eq!(idx, vec![1, 4, 7, 10, 13, 16, 19, 22, 25]);
    assert!(layer_cubies(&c, Axis::Y, 2).is_empty());
}

#[test]
fn turn_of_an_empty_layer_is_dropped() {
    let mut st = RotationState::new();
    let c = initial_cubies();
    start_rotation(&mut st, MoveCommand::slice(Axis::X, 5, Spin::Positive, false), &c);
    assert!(st.anim.is_none());
    let mut q = MoveQueue::new();
    let mut t = scrambled_stopped();
    q.queue.push_back(MoveCommand::slice(Axis::X, 5, Spin::Positive, false));
    assert!(begin_next_move(&mut q, &mut st, &mut t, &c).is_some());
    assert!(st.anim.is_none());
    assert_eq!(t.move_count, 1);
    assert!(t.is_running);
}

#[test]
fn scramble_turns_are_not_counted() {
    let mut q = MoveQueue::new();
    let mut st = RotationState::new();
    let mut t = scrambled_stopped();
    let c = initial_cubies();
    q.queue.push_back(MoveCommand::from_face(Face::B, true, true));
    begin_next_move(&mut q, &mut st, &mut t, &c);
    assert_eq!(t, scrambled_stopped());
    assert!(st.anim.is_some());
}

#[test]
fn unscrambled_turns_are_not_timed() {
    let mut q = MoveQueue::new();
    let mut st = RotationState::new();
    let mut t = GameTimerState::new();
    let c = initial_cubies();
    q.queue.push_back(MoveCommand::from_face(Face::R, false, false));
    begin_next_move(&mut q, &mut st, &mut t, &c);
    assert_eq!(t, GameTimerState::new());
}

#[test]
fn solving_after_a_scramble_stops_the_clock() {
    let mut q = MoveQueue::new();
    let mut h = MoveHistory::new();
    let mut st = RotationState::new();
    let mut t = scrambled_stopped();
    let mut c = initial_cubies();
    q.queue.push_back(MoveCommand::from_face(Face::U, false, false));
    begin_next_move(&mut q, &mut st, &mut t, &c);
    assert!(t.is_running);
    assert_eq!(t.move_count, 1);
    t.tick(1500);
    complete_rotation(&q, &mut h, &mut st, &mut t, &mut c);
    assert!(st.anim.is_none());
    assert_eq!(h.history, vec![MoveCommand::from_face(Face::U, false, false)]);
    assert!(t.is_running);
    assert!(!is_solved(&c));
    trigger_undo(&mut q, &mut h, &st);
    assert!(h.history.is_empty());
    assert_eq!(q.queue.len(), 1);
    assert_eq!(q.queue[0], MoveCommand::from_face(Face::U, false, false).invert());
    begin_next_move(&mut q, &mut st, &mut t, &c);
    assert_eq!(t.move_count, 2);
    t.tick(250);
    complete_rotation(&q, &mut h, &mut st, &mut t, &mut c);
    assert!(is_solved(&c));
    assert!(!t.is_running);
    assert!(t.is_solved);
    assert_eq!(t.elapsed_ms, 1750);
    // the undo turn is not recorded
    assert!(h.history.is_empty());
    t.tick(1000);
    assert_eq!(t.elapsed_ms, 1750);
}

#[test]
fn scramble_moves_stay_out_of_the_history() {
    let q = MoveQueue::new();
    let mut h = MoveHistory::new();
    let mut st = RotationState::new();
    let mut t = GameTimerState::new();
    let mut c = initial_cubies();
    start_rotation(&mut st, MoveCommand::from_face(Face::L, false, true), &c);
    complete_rotation(&q, &mut h, &mut st, &mut t, &mut c);
    assert!(h.history.is_empty());
    assert!(!is_solved(&c));
}

#[test]
fn clock_keeps_running_while_turns_wait() {
    let mut q = MoveQueue::new();
    let mut h = MoveHistory::new();
    let mut st = RotationState::new();
    let mut t = scrambled_stopped();
    let mut c = initial_cubies();
    q.queue.push_back(MoveCommand::from_face(Face::F, false, false));
    q.queue.push_back(MoveCommand::from_face(Face::F, false, false));
    q.queue.push_back(MoveCommand::from_face(Face::F, false, false));
    q.queue.push_back(MoveCommand::from_face(Face::F, false, false));
    for _ in 0..3 {
        begin_next_move(&mut q, &mut st, &mut t, &c);
        complete_rotation(&q, &mut h, &mut st, &mut t, &mut c);
    }
    begin_next_move(&mut q, &mut st, &mut t, &c);
    assert!(q.queue.is_empty());
    complete_rotation(&q, &mut h, &mut st, &mut t, &mut c);
    assert!(is_solved(&c));
    assert!(t.is_solved);
    assert_eq!(t.move_count, 4);
}

#[test]
fn tick_counts_only_while_running() {
    let mut t = GameTimerState::new();
    t.tick(100);
    assert_eq!(t.elapsed_ms, 0);
    t.is_running = true;
    t.tick(100);
    t.tick(23);
    assert_eq!(t.elapsed_ms, 123);
    t.elapsed_ms = u64::MAX - 5;
    t.tick(100);
    assert_eq!(t.elapsed_ms, u64::MAX);
}

#[test]
fn undo_waits_for_idle() {
    let mut q = MoveQueue::new();
    let mut h = MoveHistory::new();
    let mut st = RotationState::new();
    let c = initial_cubies();
    h.history.push(MoveCommand::from_face(Face::R, false, false));
    q.queue.push_back(MoveCommand::from_face(Face::L, false, false));
    trigger_undo(&mut q, &mut h, &st);
    assert_eq!(h.history.len(), 1);
    assert_eq!(q.queue.len(), 1);
    q.queue.clear();
    start_rotation(&mut st, MoveCommand::from_face(Face::L, false, false), &c);
    trigger_undo(&mut q, &mut h, &st);
    assert_eq!(h.history.len(), 1);
    assert!(q.queue.is_empty());
    let idle = RotationState::new();
    trigger_undo(&mut q, &mut h, &idle);
    assert!(h.history.is_empty());
    assert_eq!(q.queue[0], MoveCommand::from_face(Face::R, false, false).invert());
    // nothing left to undo
    let mut q2 = MoveQueue::new();
    trigger_undo(&mut q2, &mut h, &idle);
    assert!(q2.queue.is_empty());
}

#[test]
fn reset_starts_over() {
    let mut q = MoveQueue::new();
    let mut h = MoveHistory::new();
    let mut st = RotationState::new();
    let mut t = GameTimerState { is_scrambled: true, is_running: true, elapsed_ms: 9000, move_count: 12, is_solved: false };
    let mut info = ScrambleInfo::new();
    let mut c = initial_cubies();
    trigger_scramble(&mut q, &mut h, &mut t, &mut info);
    h.history.push(MoveCommand::from_face(Face::U, false, false));
    start_rotation(&mut st, MoveCommand::from_face(Face::D, false, false), &c);
    complete_rotation(&q, &mut h, &mut st, &mut t, &mut c);
    start_rotation(&mut st, MoveCommand::from_face(Face::F, false, false), &c);
    trigger_reset(&mut q, &mut h, &mut st, &mut t, &mut info, &mut c);
    assert!(q.queue.is_empty());
    assert!(h.history.is_empty());
    assert!(st.anim.is_none());
    assert_eq!(t, GameTimerState::new());
    assert_eq!(info.sequence, "");
    assert_eq!(c, initial_cubies());
    assert!(is_solved(&c));
}

#[test]
fn face_key_priority() {
    assert_eq!(check_face_keys(true, true, false, false, false, true), vec![Face::U, Face::D, Face::B]);
    assert_eq!(check_face_keys(false, true, true, false, false, false), vec![Face::D, Face::R]);
    assert_eq!(check_face_keys(false, false, true, true, false, false), vec![Face::R, Face::L]);
    assert_eq!(check_face_keys(false, false, false, true, true, false), vec![Face::L, Face::F]);
    assert_eq!(check_face_keys(true, true, true, true, true, true), vec![Face::U, Face::D, Face::R, Face::L, Face::F, Face::B]);
    assert_eq!(check_face_keys(false, false, false, false, false, true), vec![Face::B]);
    assert_eq!(check_face_keys(false, false, false, false, false, false), vec![]);
}

#[test]
fn keyboard_face_keys_queue_turns() {
    let mut q = MoveQueue::new();
    let mut h = MoveHistory::new();
    let mut st = RotationState::new();
    let mut t = GameTimerState::new();
    let mut info = ScrambleInfo::new();
    let mut c = initial_cubies();
    let keys = KeyboardInput { shift: true, b: true, ..no_keys() };
    keyboard_input_system(keys, &mut q, &mut h, &mut st, &mut t, &mut info, &mut c);
    assert_eq!(q.queue.len(), 1);
    assert_eq!(q.queue[0], MoveCommand::from_face(Face::B, true, false));
    let keys = KeyboardInput { r: true, ..no_keys() };
    keyboard_input_system(keys, &mut q, &mut h, &mut st, &mut t, &mut info, &mut c);
    assert_eq!(q.queue[1], MoveCommand::from_face(Face::R, false, false));
    // undo is refused while turns wait
    h.history.push(MoveCommand::from_face(Face::U, false, false));
    let keys = KeyboardInput { undo: true, ..no_keys() };
    keyboard_input_system(keys, &mut q, &mut h, &mut st, &mut t, &mut info, &mut c);
    assert_eq!(q.queue.len(), 2);
    assert_eq!(h.history.len(), 1);
}

#[test]
fn keyboard_undo_and_reset() {
    let mut q = MoveQueue::new();
    let mut h = MoveHistory::new();
    let mut st = RotationState::new();
    let mut t = GameTimerState::new();
    let mut info = ScrambleInfo::new();
    let mut c = initial_cubies();
    h.history.push(MoveCommand::from_face(Face::U, false, false));
    let keys = KeyboardInput { undo: true, ..no_keys() };
    keyboard_input_system(keys, &mut q, &mut h, &mut st, &mut t, &mut info, &mut c);
    assert_eq!(q.queue.len(), 1);
    assert_eq!(q.queue[0], MoveCommand::from_face(Face::U, false, false).invert());
    assert!(h.history.is_empty());
    let keys = KeyboardInput { reset: true, f: true, scramble: true, ..no_keys() };
    keyboard_input_system(keys, &mut q, &mut h, &mut st, &mut t, &mut info, &mut c);
    assert!(q.queue.is_empty());
    assert_eq!(t, GameTimerState::new());
    assert_eq!(info.sequence, "");
}

#[test]
fn keyboard_scramble_replaces_the_queue() {
    let mut q = MoveQueue::new();
    let mut h = MoveHistory::new();
    let mut st = RotationState::new();
    let mut t = GameTimerState::new();
    let mut info = ScrambleInfo::new();
    let mut c = initial_cubies();
    h.history.push(MoveCommand::from_face(Face::U, false, false));
    let keys = KeyboardInput { scramble: true, l: true, undo: true, ..no_keys() };
    keyboard_input_system(keys, &mut q, &mut h, &mut st, &mut t, &mut info, &mut c);
    assert!(q.queue.len() >= 20);
    assert!(q.queue.iter().all(|m| m.is_scramble));
    // turns made before a scramble cannot be undone after it
    assert!(h.history.is_empty());
    assert!(t.is_scrambled && !t.is_running && t.move_count == 0);
    assert!(!info.sequence.is_empty());
}

#[test]
fn every_face_key_of_a_frame_is_queued() {
    let mut q = MoveQueue::new();
    let mut h = MoveHistory::new();
    let mut st = RotationState::new();
    let mut t = GameTimerState::new();
    let mut info = ScrambleInfo::new();
    let mut c = initial_cubies();
    q.queue.push_back(MoveCommand::from_face(Face::F, false, false));
    let keys = KeyboardInput { shift: true, u: true, l: true, b: true, ..no_keys() };
    keyboard_input_system(keys, &mut q, &mut h, &mut st, &mut t, &mut info, &mut c);
    let queued: Vec<MoveCommand> = q.queue.iter().copied().collect();
    assert_eq!(
        queued,
        vec![
            MoveCommand::from_face(Face::F, false, false),
            MoveCommand::from_face(Face::U, true, false),
            MoveCommand::from_face(Face::L, true, false),
            MoveCommand::from_face(Face::B, true, false),
        ]
    );
}

#[test]
fn successive_undos_walk_the_history_back() {
    let mut q = MoveQueue::new();
    let mut h = MoveHistory::new();
    let mut st = RotationState::new();
    let mut t = GameTimerState::new();
    let mut c = initial_cubies();
    let start = c.clone();
    let r = MoveCommand::from_face(Face::R, false, false);
    let u = MoveCommand::from_face(Face::U, false, false);
    for m in [r, u] {
        q.queue.push_back(m);
        begin_next_move(&mut q, &mut st, &mut t, &c);
        complete_rotation(&q, &mut h, &mut st, &mut t, &mut c);
    }
    let after_r = {
        let mut c2 = start.clone();
        rubiks_sim::cube::turn_layer(&mut c2, r.axis, r.layer, r.angle);
        c2
    };
    assert_eq!(h.history, vec![r, u]);
    trigger_undo(&mut q, &mut h, &st);
    assert_eq!(q.queue[0], u.invert());
    begin_next_move(&mut q, &mut st, &mut t, &c);
    complete_rotation(&q, &mut h, &mut st, &mut t, &mut c);
    assert_eq!(h.history, vec![r]);
    assert_eq!(c, after_r);
    trigger_undo(&mut q, &mut h, &st);
    assert_eq!(q.queue[0], r.invert());
    begin_next_move(&mut q, &mut st, &mut t, &c);
    complete_rotation(&q, &mut h, &mut st, &mut t, &mut c);
    assert!(h.history.is_empty());
    assert_eq!(c, start);
    trigger_undo(&mut q, &mut h, &st);
    assert!(q.queue.is_empty());
}

#[test]
fn undo_after_a_scramble_reverts_nothing_before_it() {
    let mut q = MoveQueue::new();
    let mut h = MoveHistory::new();
    let mut st = RotationState::new();
    let mut t = GameTimerState::new();
    let mut info = ScrambleInfo::new();
    let mut c = initial_cubies();
    q.queue.push_back(MoveCommand::from_face(Face::R, false, false));
    begin_next_move(&mut q, &mut st, &mut t, &c);
    complete_rotation(&q, &mut h, &mut st, &mut t, &mut c);
    assert_eq!(h.history.len(), 1);
    trigger_scramble(&mut q, &mut h, &mut t, &mut info);
    while !q.queue.is_empty() {
        begin_next_move(&mut q, &mut st, &mut t, &c);
        complete_rotation(&q, &mut h, &mut st, &mut t, &mut c);
    }
    assert!(h.history.is_empty());
    trigger_undo(&mut q, &mut h, &st);
    assert!(q.queue.is_empty());
}
