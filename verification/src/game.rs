//! The state of a game and its transitions: the move queue, the undo
//! history, the running turn, the timer, and the actions that scramble,
//! reset and undo.
use vstd::prelude::*;

use std::collections::VecDeque;

use crate::cube::{
    apply_command, cube_wf, cubies_negatable, face_command, in_layer,
    inverse_command, is_solved, is_solved_spec, reset_cubie, reset_cubies, solved_cube,
    turn_layer, Cubie, Face, MoveCommand,
};
use crate::geometry::{Axis, CubePos, Spin};
use crate::scramble::{queue_wca_scramble, scramble_commands, scramble_notation, valid_scramble, ScrambleMove};

verus! {

/// The turns waiting to be played, first in first out.
pub struct MoveQueue {
    pub queue: VecDeque<MoveCommand>,
}

/// The turns played by the user, most recent last.
pub struct MoveHistory {
    pub history: Vec<MoveCommand>,
}

/// The notation of the last scramble, shown on the HUD.
pub struct ScrambleInfo {
    pub sequence: String,
}

/// The speed-solving timer and move counter.
#[derive(Clone, Copy, Debug, PartialEq, Eq, Structural)]
pub struct GameTimerState {
    pub is_scrambled: bool,
    pub is_running: bool,
    /// Time on the clock, in milliseconds.
    pub elapsed_ms: u64,
    pub move_count: u32,
    pub is_solved: bool,
}

/// A cubie taking part in the running turn, with its position when the
/// turn began.
#[derive(Clone, Copy, Debug, PartialEq, Eq, Structural)]
pub struct AnimEntry {
    pub cubie: usize,
    pub logical_pos: CubePos,
}

/// The turn being played: its axis and direction, the cubies of its layer,
/// and the command it plays.
pub struct RotationAnim {
    pub axis: Axis,
    pub target_angle: Spin,
    pub entries: Vec<AnimEntry>,
    pub current_cmd: MoveCommand,
}

/// The turn being played, if any.
pub struct RotationState {
    pub anim: Option<RotationAnim>,
}

/// What the keyboard asks for in one frame.
#[derive(Clone, Copy, Debug, PartialEq, Eq, Structural)]
pub struct KeyboardInput {
    /// A shift key is held: face turns go counter-clockwise.
    pub shift: bool,
    /// The face keys just pressed, one flag per face.
    pub u: bool,
    pub d: bool,
    pub r: bool,
    pub l: bool,
    pub f: bool,
    pub b: bool,
    /// The scramble key was just pressed.
    pub scramble: bool,
    /// The reset key was just pressed.
    pub reset: bool,
    /// The undo key was just pressed.
    pub undo: bool,
}

/// A stopped timer with no moves, not scrambled.
pub open spec fn fresh_timer() -> GameTimerState {
    GameTimerState {
        is_scrambled: false,
        is_running: false,
        elapsed_ms: 0,
        move_count: 0,
        is_solved: false,
    }
}

/// The timer right after a scramble was asked for.
pub open spec fn scrambled_timer() -> GameTimerState {
    GameTimerState {
        is_scrambled: true,
        is_running: false,
        elapsed_ms: 0,
        move_count: 0,
        is_solved: false,
    }
}

/// The timer after `cmd` was taken from the queue: a user turn starts the
/// clock on a scrambled, stopped, unsolved cube, and is counted while the
/// clock runs or the cube is scrambled; a scramble turn changes nothing.
pub open spec fn timer_after_dequeue(t: GameTimerState, cmd: MoveCommand) -> GameTimerState {
    if cmd.is_scramble {
        t
    } else {
        let running = if t.is_scrambled && !t.is_running && !t.is_solved {
            true
        } else {
            t.is_running
        };
        let count = if running || t.is_scrambled {
            (t.move_count + 1) as u32
        } else {
            t.move_count
        };
        GameTimerState {
            is_scrambled: t.is_scrambled,
            is_running: running,
            elapsed_ms: t.elapsed_ms,
            move_count: count,
            is_solved: t.is_solved,
        }
    }
}

/// The timer after a turn ended: a running clock stops, and the cube counts
/// as solved, when the queue is empty and the cube is solved.
pub open spec fn timer_after_turn(t: GameTimerState, queue_empty: bool, solved: bool) -> GameTimerState {
    if t.is_running && queue_empty && solved {
        GameTimerState {
            is_scrambled: t.is_scrambled,
            is_running: false,
            elapsed_ms: t.elapsed_ms,
            move_count: t.move_count,
            is_solved: true,
        }
    } else {
        t
    }
}

/// The entries for the cubies among the first `n` that lie in the layer
/// `layer` along `axis`, in index order.
pub open spec fn layer_entries(s: Seq<Cubie>, axis: Axis, layer: int, n: int) -> Seq<AnimEntry>
    decreases n,
{
    if n <= 0 {
        Seq::empty()
    } else {
        let rest = layer_entries(s, axis, layer, n - 1);
        if in_layer(s[n - 1].logical_pos, axis, layer) {
            rest.push(AnimEntry { cubie: (n - 1) as usize, logical_pos: s[n - 1].logical_pos })
        } else {
            rest
        }
    }
}

/// `after` is the running turn once `cmd` was started from `before` on the
/// cube `cubies`: a turn of an empty layer is not started.
pub open spec fn turn_started(
    before: Option<RotationAnim>,
    after: Option<RotationAnim>,
    cmd: MoveCommand,
    cubies: Seq<Cubie>,
) -> bool {
    let e = layer_entries(cubies, cmd.axis, cmd.layer as int, cubies.len() as int);
    if e.len() == 0 {
        after == before
    } else {
        &&& after is Some
        &&& after->0.axis == cmd.axis
        &&& after->0.target_angle == cmd.angle
        &&& after->0.entries@ == e
        &&& after->0.current_cmd == cmd
    }
}

impl MoveQueue {
    /// An empty queue.
    pub fn new() -> (r: MoveQueue)
        ensures
            r.queue@ == Seq::<MoveCommand>::empty(),
    {
        MoveQueue { queue: VecDeque::new() }
    }

    /// Whether some waiting turn belongs to a scramble.
    pub fn has_scramble_move(&self) -> (r: bool)
        ensures
            r == (exists|i: int| 0 <= i < self.queue@.len() && (#[trigger] self.queue@[i]).is_scramble),
    {
        let n = self.queue.len();
        let mut i: usize = 0;
        while i < n
            invariant
                n == self.queue@.len(),
                i <= n,
                forall|j: int| 0 <= j < i ==> !(#[trigger] self.queue@[j]).is_scramble,
            decreases n - i,
        {
            if self.queue[i].is_scramble {
                assert(self.queue@[i as int].is_scramble);
                return true;
            }
            i = i + 1;
        }
        false
    }
}

impl MoveHistory {
    /// An empty history.
    pub fn new() -> (r: MoveHistory)
        ensures
            r.history@ == Seq::<MoveCommand>::empty(),
    {
        MoveHistory { history: Vec::new() }
    }
}

impl ScrambleInfo {
    /// No scramble shown.
    pub fn new() -> (r: ScrambleInfo)
        ensures
            r.sequence@ == Seq::<char>::empty(),
    {
        ScrambleInfo { sequence: String::new() }
    }
}

impl GameTimerState {
    /// A stopped timer with no moves, not scrambled.
    pub fn new() -> (r: GameTimerState)
        ensures
            r == fresh_timer(),
    {
        GameTimerState {
            is_scrambled: false,
            is_running: false,
            elapsed_ms: 0,
            move_count: 0,
            is_solved: false,
        }
    }

    /// Advances a running clock by `delta_ms` milliseconds (saturating at
    /// `u64::MAX`); a stopped clock is left alone.
    pub fn tick(&mut self, delta_ms: u64)
        ensures
            final(self).elapsed_ms == (if old(self).is_running {
                if old(self).elapsed_ms + delta_ms <= u64::MAX {
                    (old(self).elapsed_ms + delta_ms) as u64
                } else {
                    u64::MAX
                }
            } else {
                old(self).elapsed_ms
            }),
            final(self).is_scrambled == old(self).is_scrambled,
            final(self).is_running == old(self).is_running,
            final(self).move_count == old(self).move_count,
            final(self).is_solved == old(self).is_solved,
    {
        if self.is_running {
            self.elapsed_ms = self.elapsed_ms.saturating_add(delta_ms);
        }
    }
}

impl RotationState {
    /// No turn being played.
    pub fn new() -> (r: RotationState)
        ensures
            r.anim is None,
    {
        RotationState { anim: None }
    }
}

/// The entries for the cubies of the layer `layer` along `axis`, in index
/// order.
pub fn layer_cubies(cubies: &Vec<Cubie>, axis: Axis, layer: i32) -> (r: Vec<AnimEntry>)
    ensures
        r@ == layer_entries(cubies@, axis, layer as int, cubies@.len() as int),
{
    let mut entries: Vec<AnimEntry> = Vec::new();
    let n = cubies.len();
    let mut i: usize = 0;
    while i < n
        invariant
            n == cubies@.len(),
            i <= n,
            entries@ == layer_entries(cubies@, axis, layer as int, i as int),
        decreases n - i,
    {
        let c = cubies[i];
        if c.logical_pos.coord(axis) == layer {
            entries.push(AnimEntry { cubie: i, logical_pos: c.logical_pos });
        }
        i = i + 1;
    }
    entries
}

/// Starts playing `cmd`: records the cubies of its layer; a turn of an empty
/// layer is dropped.
pub fn start_rotation(state: &mut RotationState, cmd: MoveCommand, cubies: &Vec<Cubie>)
    ensures
        turn_started(old(state).anim, final(state).anim, cmd, cubies@),
{
    let entries = layer_cubies(cubies, cmd.axis, cmd.layer);
    if entries.len() == 0 {
        return ;
    }
    state.anim = Some(
        RotationAnim { axis: cmd.axis, target_angle: cmd.angle, entries, current_cmd: cmd },
    );
}

/// When no turn is being played, takes the next command from the queue,
/// updates the timer and the move count, and starts the turn.  Returns the
/// command taken, if any.
pub fn begin_next_move(
    queue: &mut MoveQueue,
    state: &mut RotationState,
    timer: &mut GameTimerState,
    cubies: &Vec<Cubie>,
) -> (r: Option<MoveCommand>)
    requires
        old(state).anim is None && old(queue).queue@.len() > 0 && !old(queue).queue@[0].is_scramble
            && (old(timer).is_scrambled || old(timer).is_running) ==> old(timer).move_count
            < u32::MAX,
    ensures
        old(state).anim is Some || old(queue).queue@.len() == 0 ==> {
            &&& r is None
            &&& final(queue).queue@ == old(queue).queue@
            &&& final(state).anim == old(state).anim
            &&& *final(timer) == *old(timer)
        },
        old(state).anim is None && old(queue).queue@.len() > 0 ==> {
            &&& r == Some(old(queue).queue@[0])
            &&& final(queue).queue@ == old(queue).queue@.subrange(1, old(queue).queue@.len() as int)
            &&& *final(timer) == timer_after_dequeue(*old(timer), old(queue).queue@[0])
            &&& turn_started(old(state).anim, final(state).anim, old(queue).queue@[0], cubies@)
        },
{
    if state.anim.is_some() {
        return None;
    }
    match queue.queue.pop_front() {
        None => None,
        Some(cmd) => {
            if !cmd.is_scramble {
                if timer.is_scrambled && !timer.is_running && !timer.is_solved {
                    timer.is_running = true;
                }
                if timer.is_running || timer.is_scrambled {
                    timer.move_count = timer.move_count + 1;
                }
            }
            start_rotation(state, cmd, cubies);
            Some(cmd)
        },
    }
}

/// The history after a turn ended: a user turn is recorded; a scramble
/// turn or a turn that undoes another is not.
pub open spec fn history_after_turn(h: Seq<MoveCommand>, cmd: MoveCommand) -> Seq<MoveCommand> {
    if cmd.is_scramble || cmd.is_undo {
        h
    } else {
        h.push(cmd)
    }
}

/// Ends the running turn: turns its layer, records a user turn (not one that
/// undoes another) in the history, and stops the clock when the queue is empty and the cube is
/// solved.
pub fn complete_rotation(
    queue: &MoveQueue,
    history: &mut MoveHistory,
    state: &mut RotationState,
    timer: &mut GameTimerState,
    cubies: &mut Vec<Cubie>,
)
    requires
        old(state).anim is Some,
        cubies_negatable(old(cubies)@),
    ensures
        ({
            let cmd = old(state).anim->0.current_cmd;
            &&& final(cubies)@ == apply_command(old(cubies)@, cmd)
            &&& final(history).history@ == history_after_turn(old(history).history@, cmd)
            &&& final(state).anim is None
            &&& *final(timer) == timer_after_turn(
                *old(timer),
                queue.queue@.len() == 0,
                is_solved_spec(final(cubies)@),
            )
        }),
        cubies_negatable(final(cubies)@),
        cube_wf(old(cubies)@) ==> cube_wf(final(cubies)@),
{
    proof {
        if cube_wf(old(cubies)@) {
            let cmd = old(state).anim->0.current_cmd;
            crate::cube::lemma_turn_keeps_wf(old(cubies)@, cmd.axis, cmd.layer as int, cmd.angle);
        }
    }
    let cmd = match &state.anim {
        Some(anim) => anim.current_cmd,
        None => {
            return ;
        },
    };
    turn_layer(cubies, cmd.axis, cmd.layer, cmd.angle);
    if !cmd.is_scramble && !cmd.is_undo {
        history.history.push(cmd);
    }
    state.anim = None;
    if timer.is_running && queue.queue.len() == 0 {
        let solved = is_solved(cubies);
        if solved {
            timer.is_running = false;
            timer.is_solved = true;
        }
    }
}

/// Clears the queue and the history (turns made before a scramble cannot be
/// undone after it), arms the timer, and queues a new random scramble.
pub fn trigger_scramble(
    queue: &mut MoveQueue,
    history: &mut MoveHistory,
    timer_state: &mut GameTimerState,
    scramble_info: &mut ScrambleInfo,
)
    ensures
        *final(timer_state) == scrambled_timer(),
        final(history).history@ == Seq::<MoveCommand>::empty(),
        exists|moves: Seq<ScrambleMove>|
            {
                &&& valid_scramble(moves)
                &&& final(queue).queue@ == scramble_commands(moves)
                &&& final(scramble_info).sequence@ == scramble_notation(moves)
            },
{
    queue.queue.clear();
    history.history.clear();
    timer_state.is_scrambled = true;
    timer_state.is_running = false;
    timer_state.is_solved = false;
    timer_state.elapsed_ms = 0;
    timer_state.move_count = 0;
    let ghost cleared = queue.queue@;
    queue_wca_scramble(queue, scramble_info);
    proof {
        let moves = choose|moves: Seq<ScrambleMove>|
            {
                &&& valid_scramble(moves)
                &&& queue.queue@ == cleared + scramble_commands(moves)
                &&& scramble_info.sequence@ == scramble_notation(moves)
            };
        assert(cleared + scramble_commands(moves) =~= scramble_commands(moves));
    }
}

/// Puts everything back as at start: empty queue and history, no turn, a
/// fresh timer, no scramble shown, and every cubie in its solved place.
pub fn trigger_reset(
    queue: &mut MoveQueue,
    history: &mut MoveHistory,
    state: &mut RotationState,
    timer_state: &mut GameTimerState,
    scramble_info: &mut ScrambleInfo,
    cubies: &mut Vec<Cubie>,
)
    ensures
        final(queue).queue@ == Seq::<MoveCommand>::empty(),
        final(history).history@ == Seq::<MoveCommand>::empty(),
        final(state).anim is None,
        *final(timer_state) == fresh_timer(),
        final(scramble_info).sequence@ == Seq::<char>::empty(),
        final(cubies)@ == Seq::new(old(cubies)@.len(), |i: int| reset_cubie(old(cubies)@[i])),
        cube_wf(old(cubies)@) ==> final(cubies)@ == solved_cube(),
{
    queue.queue.clear();
    history.history.clear();
    state.anim = None;
    timer_state.is_scrambled = false;
    timer_state.is_running = false;
    timer_state.is_solved = false;
    timer_state.elapsed_ms = 0;
    timer_state.move_count = 0;
    scramble_info.sequence = String::new();
    reset_cubies(cubies);
    proof {
        if cube_wf(old(cubies)@) {
            assert(cubies@ =~= solved_cube());
        }
    }
}

/// When no turn is being played and nothing waits in the queue, takes the
/// last user turn off the history and queues the turn that undoes it.
pub fn trigger_undo(queue: &mut MoveQueue, history: &mut MoveHistory, state: &RotationState)
    ensures
        (state.anim is Some || old(queue).queue@.len() != 0 || old(history).history@.len() == 0)
            ==> {
            &&& final(queue).queue@ == old(queue).queue@
            &&& final(history).history@ == old(history).history@
        },
        (state.anim is None && old(queue).queue@.len() == 0 && old(history).history@.len() > 0)
            ==> {
            &&& final(history).history@ == old(history).history@.drop_last()
            &&& final(queue).queue@ == seq![inverse_command(old(history).history@.last())]
        },
{
    if state.anim.is_some() || queue.queue.len() != 0 {
        return ;
    }
    if let Some(last_move) = history.history.pop() {
        queue.queue.push_back(last_move.invert());
        assert(queue.queue@ =~= seq![inverse_command(old(history).history@.last())]);
    }
}

/// The faces whose keys are pressed, in the order U, D, R, L, F, B.
pub open spec fn pressed_faces(u: bool, d: bool, r: bool, l: bool, f: bool, b: bool) -> Seq<Face> {
    (if u { seq![Face::U] } else { Seq::empty() }) + (if d { seq![Face::D] } else { Seq::empty() })
        + (if r { seq![Face::R] } else { Seq::empty() }) + (if l { seq![Face::L] } else { Seq::empty() })
        + (if f { seq![Face::F] } else { Seq::empty() }) + (if b { seq![Face::B] } else { Seq::empty() })
}

/// The faces whose keys are pressed, in the order U, D, R, L, F, B.
pub fn check_face_keys(u: bool, d: bool, r: bool, l: bool, f: bool, b: bool) -> (res: Vec<Face>)
    ensures
        res@ == pressed_faces(u, d, r, l, f, b),
{
    let mut v: Vec<Face> = Vec::new();
    if u {
        v.push(Face::U);
    }
    if d {
        v.push(Face::D);
    }
    if r {
        v.push(Face::R);
    }
    if l {
        v.push(Face::L);
    }
    if f {
        v.push(Face::F);
    }
    if b {
        v.push(Face::B);
    }
    assert(v@ =~= pressed_faces(u, d, r, l, f, b));
    v
}

/// The face turns asked for by the face keys of `keys`, one per pressed
/// key, counter-clockwise with shift.
pub open spec fn face_key_commands(keys: KeyboardInput) -> Seq<MoveCommand> {
    let faces = pressed_faces(keys.u, keys.d, keys.r, keys.l, keys.f, keys.b);
    Seq::new(faces.len(), |i: int| face_command(faces[i], keys.shift, false))
}

/// The queue after the face keys of `keys` were handled.
pub open spec fn queue_after_face_keys(q: Seq<MoveCommand>, keys: KeyboardInput) -> Seq<MoveCommand> {
    q + face_key_commands(keys)
}

/// Handles the keys of one frame, in this order: every pressed face key
/// queues a turn of its face (counter-clockwise with shift), then scramble,
/// then reset, then undo.
pub fn keyboard_input_system(
    keys: KeyboardInput,
    queue: &mut MoveQueue,
    history: &mut MoveHistory,
    state: &mut RotationState,
    timer_state: &mut GameTimerState,
    scramble_info: &mut ScrambleInfo,
    cubies: &mut Vec<Cubie>,
)
    ensures
        keys.reset ==> {
            &&& final(queue).queue@ == Seq::<MoveCommand>::empty()
            &&& final(history).history@ == Seq::<MoveCommand>::empty()
            &&& final(state).anim is None
            &&& *final(timer_state) == fresh_timer()
            &&& final(scramble_info).sequence@ == Seq::<char>::empty()
            &&& final(cubies)@ == Seq::new(
                old(cubies)@.len(),
                |i: int| reset_cubie(old(cubies)@[i]),
            )
        },
        !keys.reset && keys.scramble ==> {
            &&& *final(timer_state) == scrambled_timer()
            &&& exists|moves: Seq<ScrambleMove>|
                {
                    &&& valid_scramble(moves)
                    &&& final(queue).queue@ == scramble_commands(moves)
                    &&& final(scramble_info).sequence@ == scramble_notation(moves)
                }
            &&& final(history).history@ == Seq::<MoveCommand>::empty()
            &&& final(state).anim == old(state).anim
            &&& final(cubies)@ == old(cubies)@
        },
        !keys.reset && !keys.scramble ==> {
            let q1 = queue_after_face_keys(old(queue).queue@, keys);
            &&& *final(timer_state) == *old(timer_state)
            &&& final(scramble_info).sequence@ == old(scramble_info).sequence@
            &&& final(state).anim == old(state).anim
            &&& final(cubies)@ == old(cubies)@
            &&& if keys.undo && old(state).anim is None && q1.len() == 0
                && old(history).history@.len() > 0 {
                &&& final(history).history@ == old(history).history@.drop_last()
                &&& final(queue).queue@ == seq![inverse_command(old(history).history@.last())]
            } else {
                &&& final(history).history@ == old(history).history@
                &&& final(queue).queue@ == q1
            }
        },
{
    let faces = check_face_keys(keys.u, keys.d, keys.r, keys.l, keys.f, keys.b);
    let n = faces.len();
    let mut i: usize = 0;
    while i < n
        invariant
            n == faces@.len(),
            faces@ == pressed_faces(keys.u, keys.d, keys.r, keys.l, keys.f, keys.b),
            i <= n,
            queue.queue@ == old(queue).queue@ + face_key_commands(keys).subrange(0, i as int),
        decreases n - i,
    {
        queue.queue.push_back(MoveCommand::from_face(faces[i], keys.shift, false));
        assert(face_key_commands(keys).subrange(0, i + 1) =~= face_key_commands(keys).subrange(
            0,
            i as int,
        ).push(face_command(faces@[i as int], keys.shift, false)));
        i = i + 1;
    }
    assert(face_key_commands(keys).subrange(0, n as int) =~= face_key_commands(keys));
    if keys.scramble {
        trigger_scramble(queue, history, timer_state, scramble_info);
    }
    if keys.reset {
        trigger_reset(queue, history, state, timer_state, scramble_info, cubies);
    }
    if keys.undo {
        trigger_undo(queue, history, state);
    }
}

} // verus!
