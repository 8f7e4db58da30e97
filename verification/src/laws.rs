//! Properties of the library as a whole: what undo gives back, what every
//! turn keeps, and how the scramble, the faces and the timer behave.
use vstd::prelude::*;

use crate::cube::{
    apply_command, apply_commands, cube_wf, cubies_negatable, face_axis, face_command,
    face_layer, face_of_layer, face_turn, grid_pos, inverse_command, is_solved_spec,
    lemma_grid_pos_in_grid, lemma_solved_cube_wf, lemma_turn_cubie_four, lemma_turn_cubie_inverse,
    lemma_turn_keeps_wf, lemma_wf_negatable, solved_cube, Cubie, Face,
    MoveCommand,
};
use crate::game::{history_after_turn, MoveQueue, scrambled_timer, timer_after_dequeue, timer_after_turn, GameTimerState};
use crate::geometry::Orientation;
use crate::text::{decimal, digit_char, two_digits};
use crate::ui::{hud_status_spec, HudStatus};
use crate::scramble::{move_commands, scramble_commands, valid_scramble, ScrambleMove};

verus! {

/// The commands that undo `cmds`, most recent first.
pub open spec fn undo_commands(cmds: Seq<MoveCommand>) -> Seq<MoveCommand>
    decreases cmds.len(),
{
    if cmds.len() == 0 {
        Seq::empty()
    } else {
        seq![inverse_command(cmds.last())] + undo_commands(cmds.drop_last())
    }
}

/// Undo: a turn followed by the turn that undoes it gives the cube back.
pub proof fn law_undo_restores_cube(s: Seq<Cubie>, cmd: MoveCommand)
    requires
        cubies_negatable(s),
    ensures
        apply_command(apply_command(s, cmd), inverse_command(cmd)) == s,
{
    let t = apply_command(apply_command(s, cmd), inverse_command(cmd));
    assert forall|i: int| 0 <= i < s.len() implies #[trigger] t[i] == s[i] by {
        lemma_turn_cubie_inverse(s[i], cmd.axis, cmd.layer as int, cmd.angle);
    }
    assert(t =~= s);
}

/// Four equal quarter turns of a layer give the cube back.
pub proof fn law_four_quarter_turns(s: Seq<Cubie>, cmd: MoveCommand)
    requires
        cubies_negatable(s),
    ensures
        apply_command(apply_command(apply_command(apply_command(s, cmd), cmd), cmd), cmd) == s,
{
    let t = apply_command(apply_command(apply_command(apply_command(s, cmd), cmd), cmd), cmd);
    assert forall|i: int| 0 <= i < s.len() implies #[trigger] t[i] == s[i] by {
        lemma_turn_cubie_four(s[i], cmd.axis, cmd.layer as int, cmd.angle);
    }
    assert(t =~= s);
}

/// Every turn keeps the cube well formed: 27 cubies at 27 distinct grid
/// points, each placed where its rotation takes its solved place.
pub proof fn law_turn_keeps_wf(s: Seq<Cubie>, cmd: MoveCommand)
    requires
        cube_wf(s),
    ensures
        cube_wf(apply_command(s, cmd)),
{
    lemma_turn_keeps_wf(s, cmd.axis, cmd.layer as int, cmd.angle);
}

/// Any sequence of turns keeps the cube well formed.
pub proof fn law_turns_keep_wf(s: Seq<Cubie>, cmds: Seq<MoveCommand>)
    requires
        cube_wf(s),
    ensures
        cube_wf(apply_commands(s, cmds)),
    decreases cmds.len(),
{
    if cmds.len() > 0 {
        law_turns_keep_wf(s, cmds.drop_last());
        law_turn_keeps_wf(apply_commands(s, cmds.drop_last()), cmds.last());
    }
}

/// Playing `a` and then `b` is playing `a + b`.
pub proof fn lemma_apply_commands_append(s: Seq<Cubie>, a: Seq<MoveCommand>, b: Seq<MoveCommand>)
    ensures
        apply_commands(apply_commands(s, a), b) == apply_commands(s, a + b),
    decreases b.len(),
{
    if b.len() == 0 {
        assert(a + b =~= a);
    } else {
        lemma_apply_commands_append(s, a, b.drop_last());
        assert((a + b).drop_last() =~= a + b.drop_last());
        assert((a + b).last() == b.last());
    }
}

/// Undoing the whole history, most recent turn first, gives back the cube
/// the history started from.
pub proof fn law_undo_all_restores_cube(s: Seq<Cubie>, history: Seq<MoveCommand>)
    requires
        cube_wf(s),
    ensures
        apply_commands(apply_commands(s, history), undo_commands(history)) == s,
    decreases history.len(),
{
    if history.len() > 0 {
        let h = history.drop_last();
        let m = history.last();
        let mid = apply_commands(s, h);
        law_turns_keep_wf(s, h);
        lemma_wf_negatable(mid);
        law_undo_restores_cube(mid, m);
        let u = seq![inverse_command(m)];
        lemma_apply_commands_append(apply_commands(s, history), u, undo_commands(h));
        assert(apply_commands(apply_commands(s, history), u) == apply_command(
            apply_commands(s, history),
            inverse_command(m),
        )) by {
            assert(u.drop_last() =~= Seq::<MoveCommand>::empty());
            assert(u.last() == inverse_command(m));
            assert(apply_commands(apply_commands(s, history), u.drop_last()) == apply_commands(
                s,
                history,
            ));
        }
        assert(apply_commands(s, history) == apply_command(mid, m));
        law_undo_all_restores_cube(s, h);
    }
}

/// The cube starts solved and well formed.
pub proof fn law_initial_cube_solved()
    ensures
        cube_wf(solved_cube()),
        is_solved_spec(solved_cube()),
{
    lemma_solved_cube_wf();
}

/// The solved check notices a single quarter turn of any face: the turned
/// cube is not solved.
pub proof fn law_quarter_turn_unsolves(face: Face, inverse: bool, is_scramble: bool)
    ensures
        !is_solved_spec(apply_command(solved_cube(), face_command(face, inverse, is_scramble))),
{
    let s = solved_cube();
    let t = apply_command(s, face_command(face, inverse, is_scramble));
    // a corner of the turned layer
    let i: int = match face {
        Face::U => 26,
        Face::D => 20,
        Face::R => 26,
        Face::L => 8,
        Face::F => 26,
        Face::B => 24,
    };
    lemma_grid_pos_in_grid(i);
    assert(t[i].logical_pos != t[i].initial_pos);
}

/// A solved well-formed cube is the solved cube itself, orientations of the
/// face centres and the core aside.
pub proof fn law_solved_means_home(s: Seq<Cubie>)
    requires
        cube_wf(s),
        is_solved_spec(s),
    ensures
        forall|i: int|
            0 <= i < 27 ==> (#[trigger] s[i]).logical_pos == grid_pos(i) && s[i].initial_pos
                == grid_pos(i),
{
}

/// Undo walks the history back: it takes the last user turn off the
/// history, and the turn that undoes it is not recorded when it is played,
/// so the next undo takes back the turn before.
pub proof fn law_undo_walks_back(h: Seq<MoveCommand>)
    requires
        h.len() > 0,
    ensures
        history_after_turn(h.drop_last(), inverse_command(h.last())) == h.drop_last(),
{
}

/// A user turn played and then undone leaves the history as it was.
pub proof fn law_undo_leaves_no_trace(h: Seq<MoveCommand>, m: MoveCommand)
    requires
        !m.is_scramble,
        !m.is_undo,
    ensures
        history_after_turn(h, m).drop_last() == h,
        history_after_turn(h, m).last() == m,
        history_after_turn(history_after_turn(h, m).drop_last(), inverse_command(m)) == h,
{
    assert(h.push(m).drop_last() =~= h);
}

/// The history after the turns `cmds` were played in order.
pub open spec fn history_after_turns(h: Seq<MoveCommand>, cmds: Seq<MoveCommand>) -> Seq<MoveCommand>
    decreases cmds.len(),
{
    if cmds.len() == 0 {
        h
    } else {
        history_after_turn(history_after_turns(h, cmds.drop_last()), cmds.last())
    }
}

/// Playing a queue front first, as turns are taken from it, plays every
/// queued turn once and in order: the first turn, then the rest, gives the
/// cube and the history of the whole queue played in order.
pub proof fn law_queue_plays_in_order(s: Seq<Cubie>, h: Seq<MoveCommand>, q: Seq<MoveCommand>)
    requires
        q.len() > 0,
    ensures
        apply_commands(apply_command(s, q[0]), q.drop_first()) == apply_commands(s, q),
        history_after_turns(history_after_turn(h, q[0]), q.drop_first()) == history_after_turns(h, q),
{
    let first = seq![q[0]];
    assert(first + q.drop_first() =~= q);
    lemma_apply_commands_append(s, first, q.drop_first());
    assert(first.drop_last() =~= Seq::<MoveCommand>::empty());
    assert(apply_commands(s, first) == apply_command(apply_commands(s, first.drop_last()), q[0]));
    lemma_history_after_turns_append(h, first, q.drop_first());
    assert(history_after_turns(h, first) == history_after_turn(
        history_after_turns(h, first.drop_last()),
        q[0],
    ));
}

/// Playing `a` and then `b` records what playing `a + b` records.
pub proof fn lemma_history_after_turns_append(h: Seq<MoveCommand>, a: Seq<MoveCommand>, b: Seq<MoveCommand>)
    ensures
        history_after_turns(history_after_turns(h, a), b) == history_after_turns(h, a + b),
    decreases b.len(),
{
    if b.len() == 0 {
        assert(a + b =~= a);
    } else {
        lemma_history_after_turns_append(h, a, b.drop_last());
        assert((a + b).drop_last() =~= a + b.drop_last());
        assert((a + b).last() == b.last());
    }
}

/// A user turn played and then undone, with the undo turn played too,
/// leaves the cube and the history as they were before the turn.
pub proof fn law_undo_round_trip(s: Seq<Cubie>, h: Seq<MoveCommand>, m: MoveCommand)
    requires
        cube_wf(s),
        !m.is_scramble,
        !m.is_undo,
    ensures
        ({
            let s1 = apply_command(s, m);
            let h1 = history_after_turn(h, m);
            let u = inverse_command(h1.last());
            &&& h1.len() > 0
            &&& u == inverse_command(m)
            &&& apply_command(s1, u) == s
            &&& history_after_turn(h1.drop_last(), u) == h
        }),
{
    lemma_wf_negatable(s);
    law_undo_restores_cube(s, m);
    law_undo_leaves_no_trace(h, m);
}

/// Successive undos take back successive user turns: after the undo of the
/// last turn was played, the next undo takes back the turn before it and
/// leaves the history as it was before both.
pub proof fn law_successive_undos(h: Seq<MoveCommand>, m1: MoveCommand, m2: MoveCommand)
    ensures
        ({
            let h2 = h.push(m1).push(m2);
            let after_first = history_after_turn(h2.drop_last(), inverse_command(h2.last()));
            &&& after_first == h.push(m1)
            &&& after_first.last() == m1
            &&& history_after_turn(after_first.drop_last(), inverse_command(after_first.last()))
                == h
        }),
{
    assert(h.push(m1).push(m2).drop_last() =~= h.push(m1));
    assert(h.push(m1).drop_last() =~= h);
}

/// Scramble turns are never recorded: playing a whole scramble leaves the
/// history as it was, so after a scramble (which empties the history) there
/// is nothing for undo to take back.
pub proof fn law_scramble_not_recorded(h: Seq<MoveCommand>, moves: Seq<ScrambleMove>)
    ensures
        history_after_turns(h, scramble_commands(moves)) == h,
{
    lemma_scramble_commands_shape(moves);
    lemma_scramble_turns_not_recorded(h, scramble_commands(moves));
}

/// Playing turns that all belong to a scramble records nothing.
pub proof fn lemma_scramble_turns_not_recorded(h: Seq<MoveCommand>, cmds: Seq<MoveCommand>)
    requires
        forall|i: int| 0 <= i < cmds.len() ==> (#[trigger] cmds[i]).is_scramble,
    ensures
        history_after_turns(h, cmds) == h,
    decreases cmds.len(),
{
    if cmds.len() > 0 {
        let d = cmds.drop_last();
        assert forall|i: int| 0 <= i < d.len() implies (#[trigger] d[i]).is_scramble by {
            assert(d[i] == cmds[i]);
        }
        lemma_scramble_turns_not_recorded(h, d);
        assert(cmds.last().is_scramble);
    }
}

/// Undoing an undo gives the original layer turn back: same axis, layer
/// and direction, not a scramble turn, and itself marked as an undo.
pub proof fn law_invert_involution(cmd: MoveCommand)
    ensures
        inverse_command(inverse_command(cmd)) == (MoveCommand {
            is_scramble: false,
            is_undo: true,
            ..cmd
        }),
{
}

/// A counter-clockwise face turn is the turn that undoes the clockwise one.
pub proof fn law_prime_is_inverse(face: Face)
    ensures
        inverse_command(face_command(face, false, false)) == (MoveCommand {
            is_undo: true,
            ..face_command(face, true, false)
        }),
        inverse_command(face_command(face, true, false)) == (MoveCommand {
            is_undo: true,
            ..face_command(face, false, false)
        }),
{
}

/// A face's axis and layer name that face again.
pub proof fn law_face_layer_roundtrip(face: Face)
    ensures
        face_of_layer(face_axis(face), face_layer(face)) == Some(face),
{
}

/// Opposite faces turn about the same axis with opposite layers, and their
/// clockwise turns go opposite ways about that axis.
pub proof fn law_opposite_faces()
    ensures
        face_axis(Face::U) == face_axis(Face::D) && face_layer(Face::U) == -face_layer(Face::D)
            && face_turn(Face::U, false) == face_turn(Face::D, false).opposite_spec(),
        face_axis(Face::R) == face_axis(Face::L) && face_layer(Face::R) == -face_layer(Face::L)
            && face_turn(Face::R, false) == face_turn(Face::L, false).opposite_spec(),
        face_axis(Face::F) == face_axis(Face::B) && face_layer(Face::F) == -face_layer(Face::B)
            && face_turn(Face::F, false) == face_turn(Face::B, false).opposite_spec(),
{
}

/// A scramble of 20 turns is played as 20 to 40 quarter turns, each a
/// scramble turn of a face.
pub proof fn law_scramble_commands(moves: Seq<ScrambleMove>)
    requires
        valid_scramble(moves),
    ensures
        20 <= scramble_commands(moves).len() <= 40,
        forall|i: int|
            0 <= i < scramble_commands(moves).len() ==> {
                &&& (#[trigger] scramble_commands(moves)[i]).is_scramble
                &&& scramble_commands(moves)[i].face is Some
            },
{
    lemma_scramble_commands_shape(moves);
}

/// The quarter turns of `moves` number between one and two per turn, and
/// all are scramble turns of a face.
pub proof fn lemma_scramble_commands_shape(moves: Seq<ScrambleMove>)
    ensures
        moves.len() <= scramble_commands(moves).len() <= 2 * moves.len(),
        forall|i: int|
            0 <= i < scramble_commands(moves).len() ==> {
                &&& (#[trigger] scramble_commands(moves)[i]).is_scramble
                &&& scramble_commands(moves)[i].face is Some
            },
    decreases moves.len(),
{
    if moves.len() > 0 {
        lemma_scramble_commands_shape(moves.drop_last());
        let a = scramble_commands(moves.drop_last());
        let b = move_commands(moves.last());
        assert forall|i: int| 0 <= i < scramble_commands(moves).len() implies {
            &&& (#[trigger] scramble_commands(moves)[i]).is_scramble
            &&& scramble_commands(moves)[i].face is Some
        } by {
            if i < a.len() {
                assert(scramble_commands(moves)[i] == a[i]);
            } else {
                assert(scramble_commands(moves)[i] == b[i - a.len()]);
            }
        }
    }
}

/// The clock starts with the first user turn after a scramble, and that
/// turn is counted.
pub proof fn law_timer_starts_on_first_turn(cmd: MoveCommand)
    requires
        !cmd.is_scramble,
    ensures
        timer_after_dequeue(scrambled_timer(), cmd).is_running,
        timer_after_dequeue(scrambled_timer(), cmd).move_count == 1,
{
}

/// Scramble turns neither start the clock nor count as moves.
pub proof fn law_scramble_turns_not_counted(t: GameTimerState, cmd: MoveCommand)
    requires
        cmd.is_scramble,
    ensures
        timer_after_dequeue(t, cmd) == t,
{
}

/// A cube that is not scrambled never starts the clock or counts moves.
pub proof fn law_unscrambled_not_timed(t: GameTimerState, cmd: MoveCommand)
    requires
        !t.is_scrambled,
        !t.is_running,
    ensures
        timer_after_dequeue(t, cmd) == t,
{
}

/// Once the clock stopped on a solved cube, later turns do not restart it.
pub proof fn law_solved_clock_stays_stopped(t: GameTimerState, cmd: MoveCommand)
    requires
        t.is_solved,
        !t.is_running,
    ensures
        !timer_after_dequeue(t, cmd).is_running,
        timer_after_dequeue(t, cmd).is_solved,
        timer_after_dequeue(t, cmd).elapsed_ms == t.elapsed_ms,
{
}

/// The clock stops, and the cube counts as solved, exactly when a turn
/// ends on a solved cube with the clock running and nothing left queued.
pub proof fn law_clock_stops_when_solved(t: GameTimerState, queue_empty: bool, solved: bool)
    ensures
        timer_after_turn(t, queue_empty, solved).is_solved == (t.is_solved || (t.is_running
            && queue_empty && solved)),
        timer_after_turn(t, queue_empty, solved).is_running == (t.is_running && !(queue_empty
            && solved)),
        timer_after_turn(t, queue_empty, solved).elapsed_ms == t.elapsed_ms,
        timer_after_turn(t, queue_empty, solved).move_count == t.move_count,
{
}

/// Whether a solved place is a corner: all three coordinates non-zero.
pub open spec fn is_corner_place(i: int) -> bool {
    grid_pos(i).x != 0 && grid_pos(i).y != 0 && grid_pos(i).z != 0
}

/// Whether a solved place is an edge: exactly one coordinate zero.
pub open spec fn is_edge_place(i: int) -> bool {
    (grid_pos(i).x == 0) as int + (grid_pos(i).y == 0) as int + (grid_pos(i).z == 0) as int == 1
}

/// The solved check on a well-formed cube: the cube counts as solved exactly
/// when every cubie is back at its solved place and every corner and every
/// edge is unrotated, that is, when it is the solved cube apart from the
/// orientations of the face centres and the core.
pub proof fn law_solved_check_exact(s: Seq<Cubie>)
    requires
        cube_wf(s),
    ensures
        is_solved_spec(s) <==> (forall|i: int|
            0 <= i < 27 ==> {
                &&& (#[trigger] s[i]).logical_pos == solved_cube()[i].logical_pos
                &&& (is_corner_place(i) || is_edge_place(i)) ==> s[i] == solved_cube()[i]
            }),
{
    assert forall|i: int| 0 <= i < 27 implies #[trigger] s[i].initial_pos.nonzero_count() >= 2
        <==> (is_corner_place(i) || is_edge_place(i)) by {
        lemma_grid_pos_in_grid(i);
    }
    if is_solved_spec(s) {
        assert forall|i: int| 0 <= i < 27 implies {
            &&& (#[trigger] s[i]).logical_pos == solved_cube()[i].logical_pos
            &&& (is_corner_place(i) || is_edge_place(i)) ==> s[i] == solved_cube()[i]
        } by {
            assert(s[i].initial_pos.nonzero_count() >= 2 <==> (is_corner_place(i) || is_edge_place(
                i,
            )));
        }
    }
    if forall|i: int|
        0 <= i < 27 ==> {
            &&& (#[trigger] s[i]).logical_pos == solved_cube()[i].logical_pos
            &&& (is_corner_place(i) || is_edge_place(i)) ==> s[i] == solved_cube()[i]
        } {
        assert forall|i: int| 0 <= i < s.len() implies {
            &&& (#[trigger] s[i]).logical_pos == s[i].initial_pos
            &&& s[i].initial_pos.nonzero_count() >= 2 ==> s[i].orientation
                == Orientation::identity_spec()
        } by {
            assert(s[i].initial_pos.nonzero_count() >= 2 <==> (is_corner_place(i) || is_edge_place(
                i,
            )));
        }
    }
}

/// A corner twisted in place leaves the cube unsolved, even with every
/// cubie at its solved place.
pub proof fn law_twisted_corner_unsolved(s: Seq<Cubie>, i: int)
    requires
        cube_wf(s),
        0 <= i < 27,
        is_corner_place(i),
        s[i].orientation != Orientation::identity_spec(),
    ensures
        !is_solved_spec(s),
{
    law_solved_check_exact(s);
}

/// The phase shown when the clock says solved and no scramble turn waits is
/// "solved", whether or not the clock still runs or the cube was scrambled.
pub proof fn law_hud_shows_solved(queue: Seq<MoveCommand>, timer: GameTimerState)
    requires
        forall|i: int| 0 <= i < queue.len() ==> !(#[trigger] queue[i]).is_scramble,
        timer.is_solved,
    ensures
        hud_status_spec(queue, timer) == HudStatus::Solved,
{
}

/// The phases shown with no scramble turn waiting: solved before running,
/// running before waiting, waiting only on a scrambled cube, and ready only
/// on a cube neither scrambled, running nor solved.
pub proof fn law_hud_phases(queue: Seq<MoveCommand>, timer: GameTimerState)
    requires
        forall|i: int| 0 <= i < queue.len() ==> !(#[trigger] queue[i]).is_scramble,
    ensures
        hud_status_spec(queue, timer) == HudStatus::Running <==> (timer.is_running
            && !timer.is_solved),
        hud_status_spec(queue, timer) == HudStatus::WaitingStart <==> (timer.is_scrambled
            && !timer.is_running && !timer.is_solved),
        hud_status_spec(queue, timer) == HudStatus::Ready <==> (!timer.is_scrambled
            && !timer.is_running && !timer.is_solved),
        hud_status_spec(queue, timer) != HudStatus::Scrambling,
{
}

/// While a scramble turn waits, the phase shown is "scrambling".
pub proof fn law_hud_shows_scrambling(queue: Seq<MoveCommand>, timer: GameTimerState, i: int)
    requires
        0 <= i < queue.len(),
        queue[i].is_scramble,
    ensures
        hud_status_spec(queue, timer) == HudStatus::Scrambling,
{
}

/// A user turn on a scrambled cube, or while the clock runs, adds exactly
/// one to the move count; no turn ever lowers it.
pub proof fn law_user_turn_counted(t: GameTimerState, cmd: MoveCommand)
    requires
        t.move_count < u32::MAX,
    ensures
        !cmd.is_scramble && (t.is_scrambled || t.is_running) ==> timer_after_dequeue(t, cmd).move_count
            == t.move_count + 1,
        timer_after_dequeue(t, cmd).move_count >= t.move_count,
        timer_after_dequeue(t, cmd).move_count <= t.move_count + 1,
        timer_after_dequeue(t, cmd).is_solved == t.is_solved,
        timer_after_dequeue(t, cmd).is_scrambled == t.is_scrambled,
        timer_after_dequeue(t, cmd).elapsed_ms == t.elapsed_ms,
{
}

/// The value of a string of decimal digits, most significant first.
pub open spec fn decimal_value(s: Seq<char>) -> int
    decreases s.len(),
{
    if s.len() == 0 {
        0
    } else {
        10 * decimal_value(s.drop_last()) + (s.last() as int - '0' as int)
    }
}

/// Whether a character is one of the digits `0` to `9`.
pub open spec fn is_decimal_digit(c: char) -> bool {
    '0' as int <= c as int <= '9' as int
}

/// Each digit is written with its character: the code of `0` plus its value.
pub proof fn law_digit_char_code(d: int)
    requires
        0 <= d < 10,
    ensures
        digit_char(d) as int == '0' as int + d,
        is_decimal_digit(digit_char(d)),
{
}

/// The decimal text of `n` is made of digits, has no leading zero (unless
/// it is `0`), and reads back as `n`.
pub proof fn law_decimal_round_trip(n: nat)
    ensures
        decimal(n).len() >= 1,
        forall|i: int| 0 <= i < decimal(n).len() ==> is_decimal_digit(#[trigger] decimal(n)[i]),
        decimal_value(decimal(n)) == n,
        decimal(n)[0] == '0' ==> n == 0,
    decreases n,
{
    if n < 10 {
        law_digit_char_code(n as int);
        assert(decimal(n).drop_last() =~= Seq::<char>::empty());
        assert(decimal(n).last() == digit_char(n as int));
        assert(decimal_value(decimal(n)) == 10 * decimal_value(decimal(n).drop_last()) + (decimal(
            n,
        ).last() as int - '0' as int));
    } else {
        let q = (n / 10) as nat;
        let r = (n % 10) as int;
        law_decimal_round_trip(q);
        law_digit_char_code(r);
        let t = decimal(q) + seq![digit_char(r)];
        assert(decimal(n) == t);
        assert(t.drop_last() =~= decimal(q));
        assert(forall|i: int| 0 <= i < decimal(q).len() ==> t[i] == decimal(q)[i]);
        assert(t.last() == digit_char(r));
        assert(decimal_value(t) == 10 * decimal_value(t.drop_last()) + (t.last() as int - '0' as int));
        assert(n == 10 * q + r);
    }
}

/// The two-digit fields of the clock are at least two digits long and read
/// back as their number.
pub proof fn law_two_digits_round_trip(n: nat)
    ensures
        two_digits(n).len() >= 2,
        forall|i: int| 0 <= i < two_digits(n).len() ==> is_decimal_digit(#[trigger] two_digits(n)[i]),
        decimal_value(two_digits(n)) == n,
{
    law_decimal_round_trip(n);
    if n < 10 {
        let t = seq!['0'] + decimal(n);
        assert(decimal(n).len() == 1);
        assert(t.drop_last() =~= seq!['0']);
        assert(seq!['0'].drop_last() =~= Seq::<char>::empty());
        assert(decimal(n).drop_last() =~= Seq::<char>::empty());
        assert(decimal_value(seq!['0']) == 0);
        assert forall|i: int| 0 <= i < t.len() implies is_decimal_digit(#[trigger] t[i]) by {
            if i > 0 {
                assert(t[i] == decimal(n)[i - 1]);
            }
        }
    } else {
        assert(decimal(n).len() >= 2) by {
            assert(decimal(n) == decimal((n / 10) as nat) + seq![digit_char((n % 10) as int)]);
            law_decimal_round_trip((n / 10) as nat);
        }
    }
}

} // verus!
