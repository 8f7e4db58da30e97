//! The WCA-style scramble: 20 random face turns, no face turned twice in a
//! row, and never three turns in a row on one axis.
use vstd::prelude::*;

use rand::rngs::ThreadRng;

use crate::cube::{face_axis, face_command, Face, MoveCommand};
use crate::game::{MoveQueue, ScrambleInfo};
use crate::random::{gen_index, thread_rng};

verus! {

/// The kind of a scramble turn: clockwise, counter-clockwise (prime), or a
/// half turn made of two clockwise quarter turns.
#[derive(Clone, Copy, Debug, PartialEq, Eq, Structural)]
pub enum ScrambleTurn {
    Normal,
    Prime,
    Double,
}

/// One turn of a scramble.
#[derive(Clone, Copy, Debug, PartialEq, Eq, Structural)]
pub struct ScrambleMove {
    pub face: Face,
    pub turn: ScrambleTurn,
}

/// Whether two faces turn about the same axis.
pub open spec fn same_axis(a: Face, b: Face) -> bool {
    face_axis(a) == face_axis(b)
}

/// Whether `face` may follow the turns of `last` and, before it,
/// `second_last`: not the same face as the last turn, and not a third turn
/// in a row on one axis.
pub open spec fn face_allowed(face: Face, last: Option<Face>, second_last: Option<Face>) -> bool {
    &&& last != Some(face)
    &&& match (last, second_last) {
        (Some(l), Some(sl)) => !(same_axis(face, l) && same_axis(l, sl)),
        _ => true,
    }
}

/// `face` alone if it is allowed, else nothing.
pub open spec fn keep_if_allowed(face: Face, last: Option<Face>, second_last: Option<Face>) -> Seq<
    Face,
> {
    if face_allowed(face, last, second_last) {
        seq![face]
    } else {
        Seq::empty()
    }
}

/// The allowed faces in the order U, D, R, L, F, B.
pub open spec fn allowed_faces_spec(last: Option<Face>, second_last: Option<Face>) -> Seq<Face> {
    keep_if_allowed(Face::U, last, second_last) + keep_if_allowed(Face::D, last, second_last)
        + keep_if_allowed(Face::R, last, second_last) + keep_if_allowed(Face::L, last, second_last)
        + keep_if_allowed(Face::F, last, second_last) + keep_if_allowed(Face::B, last, second_last)
}

/// The face of the turn `k` places before turn `i`, if there is one.
pub open spec fn face_before(moves: Seq<ScrambleMove>, i: int, k: int) -> Option<Face> {
    if i >= k {
        Some(moves[i - k].face)
    } else {
        None
    }
}

/// Every turn obeys the rule with respect to the two turns before it.
pub open spec fn follows_rules(moves: Seq<ScrambleMove>) -> bool {
    forall|i: int|
        0 <= i < moves.len() ==> face_allowed(
            (#[trigger] moves[i]).face,
            face_before(moves, i, 1),
            face_before(moves, i, 2),
        )
}

/// A scramble: 20 turns that obey the rule.
pub open spec fn valid_scramble(moves: Seq<ScrambleMove>) -> bool {
    &&& moves.len() == 20
    &&& follows_rules(moves)
}

/// The quarter-turn commands of one scramble turn.
pub open spec fn move_commands(m: ScrambleMove) -> Seq<MoveCommand> {
    match m.turn {
        ScrambleTurn::Normal => seq![face_command(m.face, false, true)],
        ScrambleTurn::Prime => seq![face_command(m.face, true, true)],
        ScrambleTurn::Double => seq![
            face_command(m.face, false, true),
            face_command(m.face, false, true),
        ],
    }
}

/// The quarter-turn commands of a scramble, in order.
pub open spec fn scramble_commands(moves: Seq<ScrambleMove>) -> Seq<MoveCommand>
    decreases moves.len(),
{
    if moves.len() == 0 {
        Seq::empty()
    } else {
        scramble_commands(moves.drop_last()) + move_commands(moves.last())
    }
}

/// The letter of a face.
pub open spec fn face_letter(face: Face) -> char {
    match face {
        Face::U => 'U',
        Face::D => 'D',
        Face::R => 'R',
        Face::L => 'L',
        Face::F => 'F',
        Face::B => 'B',
    }
}

/// The notation of one turn: the face letter, then `'` for a prime turn or
/// `2` for a half turn.
pub open spec fn move_token(m: ScrambleMove) -> Seq<char> {
    seq![face_letter(m.face)] + match m.turn {
        ScrambleTurn::Normal => Seq::<char>::empty(),
        ScrambleTurn::Prime => seq!['\''],
        ScrambleTurn::Double => seq!['2'],
    }
}

/// The notation of a scramble: the tokens of its turns, separated by spaces.
pub open spec fn scramble_notation(moves: Seq<ScrambleMove>) -> Seq<char>
    decreases moves.len(),
{
    if moves.len() == 0 {
        Seq::empty()
    } else if moves.len() == 1 {
        move_token(moves[0])
    } else {
        scramble_notation(moves.drop_last()) + seq![' '] + move_token(moves.last())
    }
}

/// Whether two faces turn about the same axis.
pub fn are_same_axis(a: Face, b: Face) -> (r: bool)
    ensures
        r == same_axis(a, b),
{
    a.axis() == b.axis()
}

/// Whether `face` may follow `last` and `second_last`.
pub fn is_face_allowed(face: Face, last: Option<Face>, second_last: Option<Face>) -> (r: bool)
    ensures
        r == face_allowed(face, last, second_last),
{
    match last {
        Some(l) => {
            if l == face {
                return false;
            }
            match second_last {
                Some(sl) => !(are_same_axis(face, l) && are_same_axis(l, sl)),
                None => true,
            }
        },
        None => true,
    }
}

/// The faces that may follow `last` and `second_last`, in the order
/// U, D, R, L, F, B; at least four of them.
pub fn allowed_faces(last: Option<Face>, second_last: Option<Face>) -> (r: Vec<Face>)
    ensures
        r@ == allowed_faces_spec(last, second_last),
        r@.len() >= 4,
{
    let mut v: Vec<Face> = Vec::new();
    let faces = [Face::U, Face::D, Face::R, Face::L, Face::F, Face::B];
    let ghost all = seq![Face::U, Face::D, Face::R, Face::L, Face::F, Face::B];
    assert(faces@ == all);
    let mut i: usize = 0;
    while i < 6
        invariant
            i <= 6,
            faces@ == all,
            v@ == allowed_prefix(all, last, second_last, i as int),
        decreases 6 - i,
    {
        let f = faces[i];
        if is_face_allowed(f, last, second_last) {
            v.push(f);
        }
        i = i + 1;
    }
    proof {
        reveal_with_fuel(allowed_prefix, 7);
        assert(allowed_prefix(all, last, second_last, 6) =~= allowed_faces_spec(last, second_last));
    }
    v
}

/// The allowed faces among the first `n` of `faces`.
pub open spec fn allowed_prefix(faces: Seq<Face>, last: Option<Face>, second_last: Option<Face>, n: int) -> Seq<Face>
    decreases n,
{
    if n <= 0 {
        Seq::empty()
    } else {
        allowed_prefix(faces, last, second_last, n - 1) + keep_if_allowed(faces[n - 1], last, second_last)
    }
}

/// The turn kind drawn as `kind_draw` from `0..3`: normal, prime, double.
pub open spec fn turn_of_draw(kind_draw: int) -> ScrambleTurn {
    if kind_draw == 0 {
        ScrambleTurn::Normal
    } else if kind_draw == 1 {
        ScrambleTurn::Prime
    } else {
        ScrambleTurn::Double
    }
}

/// The scramble turn drawn after `last` and `second_last`: the face at
/// position `face_draw` among the allowed faces, the kind numbered
/// `kind_draw`.
pub fn scramble_move(last: Option<Face>, second_last: Option<Face>, face_draw: usize, kind_draw: usize) -> (m: ScrambleMove)
    requires
        face_draw < allowed_faces_spec(last, second_last).len(),
        kind_draw < 3,
    ensures
        m.face == allowed_faces_spec(last, second_last)[face_draw as int],
        m.turn == turn_of_draw(kind_draw as int),
        face_allowed(m.face, last, second_last),
{
    let allowed = allowed_faces(last, second_last);
    let face = allowed[face_draw];
    proof {
        lemma_allowed_faces_allowed(last, second_last, face_draw as int);
    }
    let turn = if kind_draw == 0 {
        ScrambleTurn::Normal
    } else if kind_draw == 1 {
        ScrambleTurn::Prime
    } else {
        ScrambleTurn::Double
    };
    ScrambleMove { face, turn }
}

/// Draws the 20 turns of a scramble: each face uniformly among the allowed
/// ones, each kind uniformly among normal, prime and double.
pub fn draw_scramble(rng: &mut ThreadRng) -> (moves: Vec<ScrambleMove>)
    ensures
        valid_scramble(moves@),
{
    let mut moves: Vec<ScrambleMove> = Vec::new();
    let mut last: Option<Face> = None;
    let mut second_last: Option<Face> = None;
    let mut k: usize = 0;
    while k < 20
        invariant
            k <= 20,
            moves@.len() == k,
            follows_rules(moves@),
            last == face_before(moves@, k as int, 1),
            second_last == face_before(moves@, k as int, 2),
        decreases 20 - k,
    {
        let allowed = allowed_faces(last, second_last);
        let face_draw = gen_index(rng, allowed.len());
        let kind_draw = gen_index(rng, 3);
        let m = scramble_move(last, second_last, face_draw, kind_draw);
        let face = m.face;
        let ghost old_moves = moves@;
        moves.push(m);
        assert forall|i: int| 0 <= i < moves@.len() implies face_allowed(
            (#[trigger] moves@[i]).face,
            face_before(moves@, i, 1),
            face_before(moves@, i, 2),
        ) by {
            if i < k {
                assert(moves@[i] == old_moves[i]);
                assert(face_before(moves@, i, 1) == face_before(old_moves, i, 1));
                assert(face_before(moves@, i, 2) == face_before(old_moves, i, 2));
            }
        }
        second_last = last;
        last = Some(face);
        k = k + 1;
    }
    moves
}

/// Every face in the allowed list is allowed.
pub proof fn lemma_allowed_faces_allowed(last: Option<Face>, second_last: Option<Face>, i: int)
    requires
        0 <= i < allowed_faces_spec(last, second_last).len(),
    ensures
        face_allowed(allowed_faces_spec(last, second_last)[i], last, second_last),
{
}

/// A scramble has at least one quarter-turn command per turn.
pub proof fn lemma_scramble_commands_len(moves: Seq<ScrambleMove>)
    ensures
        scramble_commands(moves).len() >= moves.len(),
    decreases moves.len(),
{
    if moves.len() > 0 {
        lemma_scramble_commands_len(moves.drop_last());
    }
}

/// Appends the notation of one turn.
pub fn append_move_token(s: &mut String, m: ScrambleMove)
    ensures
        final(s)@ == old(s)@ + move_token(m),
{
    match m.face {
        Face::U => {
            s.append("U");
            proof {
                reveal_strlit("U");
            }
        },
        Face::D => {
            s.append("D");
            proof {
                reveal_strlit("D");
            }
        },
        Face::R => {
            s.append("R");
            proof {
                reveal_strlit("R");
            }
        },
        Face::L => {
            s.append("L");
            proof {
                reveal_strlit("L");
            }
        },
        Face::F => {
            s.append("F");
            proof {
                reveal_strlit("F");
            }
        },
        Face::B => {
            s.append("B");
            proof {
                reveal_strlit("B");
            }
        },
    }
    let ghost mid = s@;
    match m.turn {
        ScrambleTurn::Normal => {},
        ScrambleTurn::Prime => {
            s.append("'");
            proof {
                reveal_strlit("'");
            }
        },
        ScrambleTurn::Double => {
            s.append("2");
            proof {
                reveal_strlit("2");
            }
        },
    }
    assert(s@ =~= old(s)@ + move_token(m));
}

/// The notation of a scramble.
pub fn notation_of(moves: &Vec<ScrambleMove>) -> (r: String)
    ensures
        r@ == scramble_notation(moves@),
{
    let mut s = String::new();
    let n = moves.len();
    let mut i: usize = 0;
    while i < n
        invariant
            n == moves@.len(),
            i <= n,
            s@ == scramble_notation(moves@.subrange(0, i as int)),
        decreases n - i,
    {
        let ghost prefix = moves@.subrange(0, i as int);
        let ghost next = moves@.subrange(0, i + 1);
        assert(next.drop_last() =~= prefix);
        assert(next.last() == moves@[i as int]);
        if i > 0 {
            s.append(" ");
            proof {
                reveal_strlit(" ");
            }
        }
        append_move_token(&mut s, moves[i]);
        proof {
            if i == 0 {
                assert(s@ =~= scramble_notation(next));
            } else {
                assert(s@ =~= scramble_notation(prefix) + seq![' '] + move_token(moves@[i as int]));
            }
        }
        i = i + 1;
    }
    assert(moves@.subrange(0, n as int) =~= moves@);
    s
}

/// Appends the quarter-turn commands of `moves` to the queue and shows their
/// notation.
pub fn enqueue_scramble(queue: &mut MoveQueue, scramble_info: &mut ScrambleInfo, moves: &Vec<ScrambleMove>)
    ensures
        final(queue).queue@ == old(queue).queue@ + scramble_commands(moves@),
        final(scramble_info).sequence@ == scramble_notation(moves@),
{
    let n = moves.len();
    let mut i: usize = 0;
    while i < n
        invariant
            n == moves@.len(),
            i <= n,
            queue.queue@ == old(queue).queue@ + scramble_commands(moves@.subrange(0, i as int)),
        decreases n - i,
    {
        let m = moves[i];
        let ghost prefix = moves@.subrange(0, i as int);
        let ghost next = moves@.subrange(0, i + 1);
        assert(next.drop_last() =~= prefix);
        match m.turn {
            ScrambleTurn::Double => {
                queue.queue.push_back(MoveCommand::from_face(m.face, false, true));
                queue.queue.push_back(MoveCommand::from_face(m.face, false, true));
            },
            ScrambleTurn::Normal => {
                queue.queue.push_back(MoveCommand::from_face(m.face, false, true));
            },
            ScrambleTurn::Prime => {
                queue.queue.push_back(MoveCommand::from_face(m.face, true, true));
            },
        }
        assert(queue.queue@ =~= old(queue).queue@ + scramble_commands(next));
        i = i + 1;
    }
    assert(moves@.subrange(0, n as int) =~= moves@);
    scramble_info.sequence = notation_of(moves);
}

/// Queues a new random scramble and shows its notation.
pub fn queue_wca_scramble(queue: &mut MoveQueue, scramble_info: &mut ScrambleInfo)
    ensures
        exists|moves: Seq<ScrambleMove>|
            {
                &&& valid_scramble(moves)
                &&& final(queue).queue@ == old(queue).queue@ + scramble_commands(moves)
                &&& final(scramble_info).sequence@ == scramble_notation(moves)
            },
{
    let mut rng = thread_rng();
    let moves = draw_scramble(&mut rng);
    enqueue_scramble(queue, scramble_info, &moves);
}

} // verus!
