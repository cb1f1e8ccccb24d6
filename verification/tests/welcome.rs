use opencore_rustroops::welcome::{
    is_enter_keystroke, reduce_welcome, welcome_drag_should_start, WelcomeCommand, WelcomeOutcome,
    WelcomeUiState, CHROME_REVEAL_DURATION_NANOS,
};

#[test]
fn intro_animating_only_during_reveal() {
    let start: u64 = 5_000_000_000;
    let mut ui = WelcomeUiState::new();
    ui.tick(start);
    assert!(ui.intro_animating(start));
    assert!(!ui.intro_animating(start + CHROME_REVEAL_DURATION_NANOS));
}

#[test]
fn intro_runs_before_first_tick_and_keeps_first_start() {
    let mut ui = WelcomeUiState::new();
    assert!(ui.intro_animating(123));
    assert!(ui.tick(1_000));
    assert!(ui.tick(1_000 + CHROME_REVEAL_DURATION_NANOS - 1));
    assert!(!ui.tick(1_000 + CHROME_REVEAL_DURATION_NANOS));
    assert_eq!(ui.started_at(), Some(1_000));
    assert!(ui.intro_animating(0));
    assert!(ui.accepts_enter());
}

#[test]
fn initial_focus_is_requested_until_claimed() {
    let mut ui = WelcomeUiState::new();
    assert!(ui.ensure_initial_focus(false));
    assert!(!ui.focus_claimed());
    assert!(!ui.ensure_initial_focus(true));
    assert!(ui.focus_claimed());
    assert!(!ui.ensure_initial_focus(false));
}

#[test]
fn welcome_titlebar_drag_starts_only_after_pointer_moves() {
    assert!(!welcome_drag_should_start(false, true));
    assert!(!welcome_drag_should_start(true, false));
    assert!(welcome_drag_should_start(true, true));
}

#[test]
fn enter_keystroke_ignores_key_autorepeat() {
    assert!(is_enter_keystroke("enter", false, false));
    assert!(!is_enter_keystroke("enter", true, false));
}

#[test]
fn enter_keystroke_accepts_return_and_rejects_modifiers() {
    assert!(is_enter_keystroke("return", false, false));
    assert!(!is_enter_keystroke("enter", false, true));
    assert!(!is_enter_keystroke("space", false, false));
}

#[test]
fn enter_completes_welcome() {
    assert_eq!(reduce_welcome(WelcomeCommand::EnterPressed), WelcomeOutcome::Completed);
}
