use space_program::controls::{
    command_entry, cursor_input, key_axis, AutomationState, CommandKeys, CurrentCommand,
    CursorControl, CursorKeys, GrabMode, NavTargetMode, TimeKeys, TimeScale, MAX_TIME_EXPONENT,
    MIN_TIME_EXPONENT,
};

fn captured() -> CursorControl {
    CursorControl { grab: GrabMode::Locked, cursor_visible: false, camera_input_disabled: false }
}

fn released() -> CursorControl {
    CursorControl { grab: GrabMode::Free, cursor_visible: true, camera_input_disabled: true }
}

#[test]
fn click_captures_cursor() {
    let r = cursor_input(released(), CursorKeys { left_click: true, escape: false });
    assert_eq!(r.control, captured());
    assert!(!r.exit);
}

#[test]
fn escape_releases_then_quits() {
    let r = cursor_input(captured(), CursorKeys { left_click: false, escape: true });
    assert_eq!(r.control, released());
    assert!(!r.exit);
    let r = cursor_input(r.control, CursorKeys { left_click: false, escape: true });
    assert_eq!(r.control, released());
    assert!(r.exit);
}

#[test]
fn click_and_escape_in_one_frame_do_not_quit() {
    let r = cursor_input(released(), CursorKeys { left_click: true, escape: true });
    assert_eq!(r.control, released());
    assert!(!r.exit);
}

#[test]
fn confined_cursor_escape_does_not_quit() {
    let c = CursorControl { grab: GrabMode::Confined, cursor_visible: true, camera_input_disabled: true };
    let r = cursor_input(c, CursorKeys { left_click: false, escape: true });
    assert!(!r.exit);
    let r = cursor_input(c, CursorKeys { left_click: false, escape: false });
    assert_eq!(r.control, c);
}

fn keys(faster: bool, slower: bool, reset: bool) -> TimeKeys {
    TimeKeys { faster, slower, reset }
}

#[test]
fn time_scale_doubles_up_to_512() {
    let mut s = TimeScale::real_time();
    for _ in 0..20 {
        s = s.apply_keys(keys(true, false, false));
    }
    assert_eq!(s.exponent, MAX_TIME_EXPONENT);
    assert_eq!(2f32.powi(s.exponent), 512.0);
}

#[test]
fn time_scale_halves_down_to_one_512th() {
    let mut s = TimeScale::real_time();
    for _ in 0..20 {
        s = s.apply_keys(keys(false, true, false));
    }
    assert_eq!(s.exponent, MIN_TIME_EXPONENT);
    assert_eq!(2f32.powi(s.exponent), 0.001953125);
}

#[test]
fn time_scale_keys_in_order() {
    let s = TimeScale { exponent: 3 };
    assert_eq!(s.apply_keys(keys(true, false, false)).exponent, 4);
    assert_eq!(s.apply_keys(keys(false, true, false)).exponent, 2);
    assert_eq!(s.apply_keys(keys(true, true, false)).exponent, 3);
    assert_eq!(s.apply_keys(keys(true, true, true)).exponent, 0);
    let top = TimeScale { exponent: MAX_TIME_EXPONENT };
    assert_eq!(top.apply_keys(keys(true, true, false)).exponent, MAX_TIME_EXPONENT - 1);
    assert_eq!(top.doubled().exponent, MAX_TIME_EXPONENT);
    let bottom = TimeScale { exponent: MIN_TIME_EXPONENT };
    assert_eq!(bottom.halved().exponent, MIN_TIME_EXPONENT);
}

fn ck(t: bool, c: bool, n: bool) -> CommandKeys {
    CommandKeys { t, c, n }
}

#[test]
fn t_opens_the_command() {
    let r = command_entry(None, NavTargetMode::Cursor, false, ck(true, false, false));
    assert_eq!(r.entry, Some(CurrentCommand::NavTargetModeSelect));
    assert_eq!(r.mode, NavTargetMode::Cursor);
    assert!(r.restart_timer);
    let r = command_entry(None, NavTargetMode::Cursor, false, ck(false, false, true));
    assert_eq!(r.entry, None);
    assert_eq!(r.mode, NavTargetMode::Cursor);
    assert!(!r.restart_timer);
}

#[test]
fn open_command_selects_mode() {
    let open = Some(CurrentCommand::NavTargetModeSelect);
    let r = command_entry(open, NavTargetMode::Cursor, false, ck(false, false, true));
    assert_eq!(r.mode, NavTargetMode::Nearest);
    assert!(!r.restart_timer);
    let r = command_entry(open, NavTargetMode::Nearest, false, ck(false, true, false));
    assert_eq!(r.mode, NavTargetMode::Cursor);
    let r = command_entry(open, NavTargetMode::Cursor, false, ck(false, true, true));
    assert_eq!(r.mode, NavTargetMode::Nearest);
    // T while the window runs does nothing.
    let r = command_entry(open, NavTargetMode::Cursor, false, ck(true, false, false));
    assert!(!r.restart_timer);
}

#[test]
fn finished_command_ignores_mode_keys() {
    let open = Some(CurrentCommand::NavTargetModeSelect);
    let r = command_entry(open, NavTargetMode::Cursor, true, ck(false, false, true));
    assert_eq!(r.mode, NavTargetMode::Cursor);
    assert!(!r.restart_timer);
    assert_eq!(r.entry, open);
    let r = command_entry(open, NavTargetMode::Cursor, true, ck(true, false, false));
    assert!(r.restart_timer);
}

#[test]
fn key_axes() {
    assert_eq!(key_axis(true, false), -1);
    assert_eq!(key_axis(false, true), 1);
    assert_eq!(key_axis(true, true), -1);
    assert_eq!(key_axis(false, false), 0);
}

#[test]
fn focus_toggles() {
    assert_eq!(AutomationState::Idle.toggled(), AutomationState::FocusingOnTarget);
    assert_eq!(AutomationState::FocusingOnTarget.toggled(), AutomationState::Idle);
}
