use rubiks_sim::cube::{initial_cubies, Face, MoveCommand};
use rubiks_sim::game::{GameTimerState, MoveHistory, MoveQueue, RotationState, ScrambleInfo};
use rubiks_sim::ui::{
    floating_button_label, hud_status, is_face_panel_button, press_button, status_text,
    timer_text, timer_tone, toggle_controls_keyboard_system, HudStatus, TimerTone,
    UiButtonAction, UiControlsState, UiHoverState,
};

fn controls(show: bool, inverse: bool, clean: bool) -> UiControlsState {
    UiControlsState { show_face_buttons: show, is_inverse: inverse, is_clean_screen: clean }
}

#[test]
fn default_controls_are_off() {
    assert_eq!(UiControlsState::default(), controls(false, false, false));
    assert!(!UiHoverState::new().is_hovering_ui);
}

#[test]
fn panel_visibility() {
    let c = controls(true, false, false);
    assert!(c.header_visible());
    assert!(c.face_panel_visible());
    assert!(!c.restore_button_visible());
    let c = controls(true, false, true);
    assert!(!c.header_visible());
    assert!(!c.face_panel_visible());
    assert!(c.restore_button_visible());
    let c = controls(false, false, false);
    assert!(!c.face_panel_visible());
}

#[test]
fn button_labels() {
    assert_eq!(controls(true, false, false).controls_button_label(), "Botoes: Visiveis");
    assert_eq!(controls(false, false, false).controls_button_label(), "Botoes: Ocultos");
    assert_eq!(controls(false, true, false).inverse_button_label(), "Inverso: ON");
    assert_eq!(controls(false, false, false).inverse_button_label(), "Inverso: OFF");
    assert_eq!(floating_button_label(true), "Flutuando");
    assert_eq!(floating_button_label(false), "Flutuar");
}

#[test]
fn face_panel_buttons() {
    assert!(is_face_panel_button(UiButtonAction::RotateFace(Face::L)));
    assert!(is_face_panel_button(UiButtonAction::ToggleInverse));
    assert!(!is_face_panel_button(UiButtonAction::Scramble));
    assert!(!is_face_panel_button(UiButtonAction::ToggleFloating));
}

#[test]
fn keyboard_toggles() {
    let mut c = controls(false, true, false);
    toggle_controls_keyboard_system(true, false, false, &mut c);
    assert_eq!(c, controls(true, true, false));
    toggle_controls_keyboard_system(false, true, false, &mut c);
    assert_eq!(c, controls(false, true, false));
    toggle_controls_keyboard_system(true, true, false, &mut c);
    assert_eq!(c, controls(true, true, false));
    // Z is the undo key: it leaves the screen as it is
    toggle_controls_keyboard_system(false, false, true, &mut c);
    assert_eq!(c, controls(true, true, false));
    let mut clean = controls(false, false, true);
    toggle_controls_keyboard_system(false, false, true, &mut clean);
    assert!(clean.is_clean_screen);
}

#[test]
fn buttons_act() {
    let mut ui = controls(false, false, false);
    let mut q = MoveQueue::new();
    let mut h = MoveHistory::new();
    let mut st = RotationState::new();
    let mut t = GameTimerState::new();
    let mut info = ScrambleInfo::new();
    let mut c = initial_cubies();
    assert!(!press_button(UiButtonAction::RotateFace(Face::D), &mut ui, &mut q, &mut h, &mut st, &mut t, &mut info, &mut c));
    assert_eq!(q.queue[0], MoveCommand::from_face(Face::D, false, false));
    assert!(!press_button(UiButtonAction::ToggleInverse, &mut ui, &mut q, &mut h, &mut st, &mut t, &mut info, &mut c));
    assert!(ui.is_inverse);
    press_button(UiButtonAction::RotateFace(Face::D), &mut ui, &mut q, &mut h, &mut st, &mut t, &mut info, &mut c);
    assert_eq!(q.queue[1], MoveCommand::from_face(Face::D, true, false));
    assert!(press_button(UiButtonAction::ToggleFloating, &mut ui, &mut q, &mut h, &mut st, &mut t, &mut info, &mut c));
    press_button(UiButtonAction::ToggleCleanScreen, &mut ui, &mut q, &mut h, &mut st, &mut t, &mut info, &mut c);
    assert!(ui.is_clean_screen);
    press_button(UiButtonAction::ToggleFaceControls, &mut ui, &mut q, &mut h, &mut st, &mut t, &mut info, &mut c);
    assert!(ui.show_face_buttons);
    press_button(UiButtonAction::Scramble, &mut ui, &mut q, &mut h, &mut st, &mut t, &mut info, &mut c);
    assert!(t.is_scrambled);
    assert!(q.queue.iter().all(|m| m.is_scramble));
    assert_eq!(hud_status(&q, &t), HudStatus::Scrambling);
    press_button(UiButtonAction::Reset, &mut ui, &mut q, &mut h, &mut st, &mut t, &mut info, &mut c);
    assert!(q.queue.is_empty());
    assert_eq!(t, GameTimerState::new());
    h.history.push(MoveCommand::from_face(Face::F, false, false));
    press_button(UiButtonAction::Undo, &mut ui, &mut q, &mut h, &mut st, &mut t, &mut info, &mut c);
    assert_eq!(q.queue[0], MoveCommand::from_face(Face::F, false, false).invert());
    assert_eq!(ui, controls(true, true, true));
}

#[test]
fn hud_statuses() {
    let mut q = MoveQueue::new();
    let mut t = GameTimerState::new();
    assert_eq!(hud_status(&q, &t), HudStatus::Ready);
    t.is_scrambled = true;
    assert_eq!(hud_status(&q, &t), HudStatus::WaitingStart);
    t.is_running = true;
    assert_eq!(hud_status(&q, &t), HudStatus::Running);
    q.queue.push_back(MoveCommand::from_face(Face::U, false, false));
    assert_eq!(hud_status(&q, &t), HudStatus::Running);
    t.is_solved = true;
    assert_eq!(hud_status(&q, &t), HudStatus::Solved);
    q.queue.push_back(MoveCommand::from_face(Face::U, false, true));
    assert_eq!(hud_status(&q, &t), HudStatus::Scrambling);
    assert_eq!(HudStatus::Scrambling.label(), "EMBARALHANDO...");
    assert_eq!(HudStatus::Solved.label(), "RESOLVIDO");
    assert_eq!(HudStatus::Running.label(), "EM ANDAMENTO");
    assert_eq!(HudStatus::WaitingStart.label(), "AGUARDANDO INICIO");
    assert_eq!(HudStatus::Ready.label(), "PRONTO");
}

#[test]
fn timer_tones() {
    let mut t = GameTimerState::new();
    assert_eq!(timer_tone(&t), TimerTone::Idle);
    t.is_running = true;
    assert_eq!(timer_tone(&t), TimerTone::Running);
    t.is_solved = true;
    assert_eq!(timer_tone(&t), TimerTone::Solved);
}

#[test]
fn timer_texts() {
    assert_eq!(timer_text(0), "00:00.00");
    assert_eq!(timer_text(61234), "01:01.23");
    assert_eq!(timer_text(9), "00:00.00");
    assert_eq!(timer_text(59_999), "00:59.99");
    assert_eq!(timer_text(754_560), "12:34.56");
    assert_eq!(timer_text(6_000_000), "100:00.00");
}

#[test]
fn status_texts() {
    assert_eq!(status_text(0, HudStatus::Ready), "0 MOVS | PRONTO");
    assert_eq!(status_text(42, HudStatus::Running), "42 MOVS | EM ANDAMENTO");
    assert_eq!(status_text(4_294_967_295, HudStatus::Solved), "4294967295 MOVS | RESOLVIDO");
}
