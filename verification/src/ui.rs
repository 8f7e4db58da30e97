//! The on-screen controls and the HUD: which panels show, what the buttons
//! do and say, and the timer and status texts.
use vstd::prelude::*;

use crate::cube::{cube_wf, face_command, reset_cubie, solved_cube, inverse_command, Cubie, Face, MoveCommand};
use crate::game::{
    fresh_timer, scrambled_timer, trigger_reset, trigger_scramble, trigger_undo, GameTimerState,
    MoveHistory, MoveQueue, RotationState, ScrambleInfo,
};
use crate::scramble::{scramble_commands, scramble_notation, valid_scramble, ScrambleMove};
use crate::text::{append_decimal, append_two_digits, decimal, two_digits};

verus! {

/// Whether the pointer is over a button, so that a press there does not turn
/// the cube or the camera.
pub struct UiHoverState {
    pub is_hovering_ui: bool,
}

/// The toggles of the on-screen controls.
#[derive(Clone, Copy, Debug, PartialEq, Eq, Structural)]
pub struct UiControlsState {
    pub show_face_buttons: bool,
    pub is_inverse: bool,
    pub is_clean_screen: bool,
}

/// What a button does.
#[derive(Clone, Copy, Debug, PartialEq, Eq, Structural)]
pub enum UiButtonAction {
    Scramble,
    Reset,
    Undo,
    ToggleFloating,
    ToggleCleanScreen,
    ToggleFaceControls,
    RotateFace(Face),
    ToggleInverse,
}

/// The phase of the game shown beside the move count.
#[derive(Clone, Copy, Debug, PartialEq, Eq, Structural)]
pub enum HudStatus {
    Scrambling,
    Solved,
    Running,
    WaitingStart,
    Ready,
}

/// The colour family of the timer and status texts.
#[derive(Clone, Copy, Debug, PartialEq, Eq, Structural)]
pub enum TimerTone {
    Solved,
    Running,
    Idle,
}

impl UiHoverState {
    /// Not over a button.
    pub fn new() -> (r: UiHoverState)
        ensures
            !r.is_hovering_ui,
    {
        UiHoverState { is_hovering_ui: false }
    }
}

impl Default for UiControlsState {
    /// All toggles off.
    fn default() -> (r: UiControlsState)
        ensures
            r == (UiControlsState {
                show_face_buttons: false,
                is_inverse: false,
                is_clean_screen: false,
            }),
    {
        UiControlsState { show_face_buttons: false, is_inverse: false, is_clean_screen: false }
    }
}

impl UiControlsState {
    /// The header with the timer and the action buttons shows unless the
    /// screen is clean.
    pub fn header_visible(&self) -> (r: bool)
        ensures
            r == !self.is_clean_screen,
    {
        !self.is_clean_screen
    }

    /// The face buttons show when asked for and the screen is not clean.
    pub fn face_panel_visible(&self) -> (r: bool)
        ensures
            r == (!self.is_clean_screen && self.show_face_buttons),
    {
        !self.is_clean_screen && self.show_face_buttons
    }

    /// The button that brings the menu back shows only on a clean screen.
    pub fn restore_button_visible(&self) -> (r: bool)
        ensures
            r == self.is_clean_screen,
    {
        self.is_clean_screen
    }

    /// The label of the button that shows or hides the face buttons.
    pub fn controls_button_label(&self) -> (r: &'static str)
        ensures
            r@ == (if self.show_face_buttons {
                "Botoes: Visiveis"@
            } else {
                "Botoes: Ocultos"@
            }),
    {
        if self.show_face_buttons {
            "Botoes: Visiveis"
        } else {
            "Botoes: Ocultos"
        }
    }

    /// The label of the button that makes face turns counter-clockwise.
    pub fn inverse_button_label(&self) -> (r: &'static str)
        ensures
            r@ == (if self.is_inverse {
                "Inverso: ON"@
            } else {
                "Inverso: OFF"@
            }),
    {
        if self.is_inverse {
            "Inverso: ON"
        } else {
            "Inverso: OFF"
        }
    }
}

/// The label of the button that lets the cube float.
pub fn floating_button_label(floating: bool) -> (r: &'static str)
    ensures
        r@ == (if floating {
            "Flutuando"@
        } else {
            "Flutuar"@
        }),
{
    if floating {
        "Flutuando"
    } else {
        "Flutuar"
    }
}

/// Whether the button belongs to the face panel, which has colours of its own.
pub fn is_face_panel_button(action: UiButtonAction) -> (r: bool)
    ensures
        r == (action is RotateFace || action is ToggleInverse),
{
    match action {
        UiButtonAction::RotateFace(_) | UiButtonAction::ToggleInverse => true,
        _ => false,
    }
}

/// The keyboard shortcut of the controls: Tab or H shows or hides the face
/// buttons.  Z is the undo key and leaves the controls alone; the clean
/// screen and the inverse toggle have no key.
pub fn toggle_controls_keyboard_system(
    tab_pressed: bool,
    h_pressed: bool,
    z_pressed: bool,
    ui_controls: &mut UiControlsState,
)
    ensures
        final(ui_controls).show_face_buttons == (old(ui_controls).show_face_buttons != (
        tab_pressed || h_pressed)),
        final(ui_controls).is_clean_screen == old(ui_controls).is_clean_screen,
        final(ui_controls).is_inverse == old(ui_controls).is_inverse,
{
    if tab_pressed || h_pressed {
        ui_controls.show_face_buttons = !ui_controls.show_face_buttons;
    }
}

/// Performs the action of a pressed button.  Returns `true` for the button
/// that lets the cube float, whose effect is on the camera.
pub fn press_button(
    action: UiButtonAction,
    ui_controls: &mut UiControlsState,
    queue: &mut MoveQueue,
    history: &mut MoveHistory,
    state: &mut RotationState,
    timer_state: &mut GameTimerState,
    scramble_info: &mut ScrambleInfo,
    cubies: &mut Vec<Cubie>,
) -> (toggle_floating: bool)
    ensures
        toggle_floating == (action == UiButtonAction::ToggleFloating),
        final(ui_controls).show_face_buttons == (old(ui_controls).show_face_buttons != (action
            == UiButtonAction::ToggleFaceControls)),
        final(ui_controls).is_clean_screen == (old(ui_controls).is_clean_screen != (action
            == UiButtonAction::ToggleCleanScreen)),
        final(ui_controls).is_inverse == (old(ui_controls).is_inverse != (action
            == UiButtonAction::ToggleInverse)),
        action == UiButtonAction::Scramble ==> {
            &&& *final(timer_state) == scrambled_timer()
            &&& exists|moves: Seq<ScrambleMove>|
                {
                    &&& valid_scramble(moves)
                    &&& final(queue).queue@ == scramble_commands(moves)
                    &&& final(scramble_info).sequence@ == scramble_notation(moves)
                }
            &&& final(history).history@ == Seq::<MoveCommand>::empty()
            &&& final(state).anim == old(state).anim
            &&& final(cubies)@ == old(cubies)@
        },
        action == UiButtonAction::Reset ==> {
            &&& final(queue).queue@ == Seq::<MoveCommand>::empty()
            &&& final(history).history@ == Seq::<MoveCommand>::empty()
            &&& final(state).anim is None
            &&& *final(timer_state) == fresh_timer()
            &&& final(scramble_info).sequence@ == Seq::<char>::empty()
            &&& final(cubies)@ == Seq::new(
                old(cubies)@.len(),
                |i: int| reset_cubie(old(cubies)@[i]),
            )
            &&& cube_wf(old(cubies)@) ==> final(cubies)@ == solved_cube()
        },
        action == UiButtonAction::Undo ==> {
            &&& *final(timer_state) == *old(timer_state)
            &&& final(scramble_info).sequence@ == old(scramble_info).sequence@
            &&& final(state).anim == old(state).anim
            &&& final(cubies)@ == old(cubies)@
            &&& if old(state).anim is None && old(queue).queue@.len() == 0
                && old(history).history@.len() > 0 {
                &&& final(history).history@ == old(history).history@.drop_last()
                &&& final(queue).queue@ == seq![inverse_command(old(history).history@.last())]
            } else {
                &&& final(history).history@ == old(history).history@
                &&& final(queue).queue@ == old(queue).queue@
            }
        },
        action != UiButtonAction::Scramble && action != UiButtonAction::Reset && action
            != UiButtonAction::Undo ==> {
            &&& *final(timer_state) == *old(timer_state)
            &&& final(scramble_info).sequence@ == old(scramble_info).sequence@
            &&& final(state).anim == old(state).anim
            &&& final(cubies)@ == old(cubies)@
            &&& final(history).history@ == old(history).history@
            &&& final(queue).queue@ == match action {
                UiButtonAction::RotateFace(face) => old(queue).queue@.push(
                    face_command(face, old(ui_controls).is_inverse, false),
                ),
                _ => old(queue).queue@,
            }
        },
{
    match action {
        UiButtonAction::Scramble => {
            trigger_scramble(queue, history, timer_state, scramble_info);
            false
        },
        UiButtonAction::Reset => {
            trigger_reset(queue, history, state, timer_state, scramble_info, cubies);
            false
        },
        UiButtonAction::Undo => {
            trigger_undo(queue, history, state);
            false
        },
        UiButtonAction::ToggleFloating => true,
        UiButtonAction::ToggleCleanScreen => {
            ui_controls.is_clean_screen = !ui_controls.is_clean_screen;
            false
        },
        UiButtonAction::ToggleFaceControls => {
            ui_controls.show_face_buttons = !ui_controls.show_face_buttons;
            false
        },
        UiButtonAction::RotateFace(face) => {
            queue.queue.push_back(MoveCommand::from_face(face, ui_controls.is_inverse, false));
            false
        },
        UiButtonAction::ToggleInverse => {
            ui_controls.is_inverse = !ui_controls.is_inverse;
            false
        },
    }
}

/// The phase shown on the HUD: scrambling while a scramble turn waits, then
/// solved, running, waiting for the first turn after a scramble, or ready.
pub open spec fn hud_status_spec(queue: Seq<MoveCommand>, timer: GameTimerState) -> HudStatus {
    if exists|i: int| 0 <= i < queue.len() && (#[trigger] queue[i]).is_scramble {
        HudStatus::Scrambling
    } else if timer.is_solved {
        HudStatus::Solved
    } else if timer.is_running {
        HudStatus::Running
    } else if timer.is_scrambled {
        HudStatus::WaitingStart
    } else {
        HudStatus::Ready
    }
}

/// The phase shown on the HUD.
pub fn hud_status(queue: &MoveQueue, timer: &GameTimerState) -> (r: HudStatus)
    ensures
        r == hud_status_spec(queue.queue@, *timer),
{
    if queue.queue.len() != 0 && queue.has_scramble_move() {
        HudStatus::Scrambling
    } else if timer.is_solved {
        HudStatus::Solved
    } else if timer.is_running {
        HudStatus::Running
    } else if timer.is_scrambled {
        HudStatus::WaitingStart
    } else {
        HudStatus::Ready
    }
}

impl HudStatus {
    /// The text of the phase.
    pub open spec fn label_spec(self) -> Seq<char> {
        match self {
            HudStatus::Scrambling => "EMBARALHANDO..."@,
            HudStatus::Solved => "RESOLVIDO"@,
            HudStatus::Running => "EM ANDAMENTO"@,
            HudStatus::WaitingStart => "AGUARDANDO INICIO"@,
            HudStatus::Ready => "PRONTO"@,
        }
    }

    /// The text of the phase.
    pub fn label(self) -> (r: &'static str)
        ensures
            r@ == self.label_spec(),
    {
        match self {
            HudStatus::Scrambling => "EMBARALHANDO...",
            HudStatus::Solved => "RESOLVIDO",
            HudStatus::Running => "EM ANDAMENTO",
            HudStatus::WaitingStart => "AGUARDANDO INICIO",
            HudStatus::Ready => "PRONTO",
        }
    }
}

/// The colour family of the timer: solved, running, or idle.
pub fn timer_tone(timer: &GameTimerState) -> (r: TimerTone)
    ensures
        r == (if timer.is_solved {
            TimerTone::Solved
        } else if timer.is_running {
            TimerTone::Running
        } else {
            TimerTone::Idle
        }),
{
    if timer.is_solved {
        TimerTone::Solved
    } else if timer.is_running {
        TimerTone::Running
    } else {
        TimerTone::Idle
    }
}

/// The clock text `MM:SS.CC`: whole minutes (at least two digits), seconds
/// within the minute and hundredths within the second.
pub open spec fn timer_text_spec(elapsed_ms: nat) -> Seq<char> {
    two_digits(elapsed_ms / 60000) + seq![':'] + two_digits((elapsed_ms / 1000) % 60) + seq!['.']
        + two_digits((elapsed_ms / 10) % 100)
}

/// The clock text for `elapsed_ms` milliseconds.
pub fn timer_text(elapsed_ms: u64) -> (r: String)
    ensures
        r@ == timer_text_spec(elapsed_ms as nat),
{
    let mut s = String::new();
    append_two_digits(&mut s, elapsed_ms / 60000);
    s.append(":");
    proof {
        reveal_strlit(":");
    }
    append_two_digits(&mut s, (elapsed_ms / 1000) % 60);
    s.append(".");
    proof {
        reveal_strlit(".");
    }
    append_two_digits(&mut s, (elapsed_ms / 10) % 100);
    assert(s@ =~= timer_text_spec(elapsed_ms as nat));
    s
}

/// The status text `<moves> MOVS | <phase>`.
pub open spec fn status_text_spec(move_count: nat, status: HudStatus) -> Seq<char> {
    decimal(move_count) + " MOVS | "@ + status.label_spec()
}

/// The status text for the move count and the phase.
pub fn status_text(move_count: u32, status: HudStatus) -> (r: String)
    ensures
        r@ == status_text_spec(move_count as nat, status),
{
    let mut s = String::new();
    append_decimal(&mut s, move_count as u64);
    s.append(" MOVS | ");
    s.append(status.label());
    assert(s@ =~= status_text_spec(move_count as nat, status));
    s
}

} // verus!
