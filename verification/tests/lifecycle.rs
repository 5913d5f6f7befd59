use tui_core::session::{
    reset_flags, ModeFlags, Phase, TerminalError, TerminalSession,
};

#[test]
fn restoration_on_normal_exit() {
    let before = ModeFlags::restored();
    let mut session = TerminalSession::new();
    assert_eq!(session.modes, before);
    assert_eq!(session.phase, Phase::Created);

    assert_eq!(session.enter(true), Ok(()));
    assert_eq!(session.phase, Phase::Active);
    assert!(session.modes.raw);
    assert!(session.modes.alternate);
    assert!(session.modes.mouse);
    assert!(session.modes.cursor_hidden);

    session.exit();
    assert_eq!(session.phase, Phase::Done);
    assert_eq!(session.modes, before);
}

#[test]
fn restoration_on_failed_enter() {
    let before = ModeFlags::restored();
    let mut session = TerminalSession::new();
    assert_eq!(session.enter(false), Err(TerminalError::ModeSwitchFailed));
    assert_eq!(session.phase, Phase::Done);
    assert_eq!(session.modes.raw, before.raw);
    assert_eq!(session.modes.alternate, before.alternate);
    assert_eq!(session.modes.mouse, before.mouse);
}

#[test]
fn restoration_on_crash_path() {
    let before = ModeFlags::restored();
    let mut session = TerminalSession::new();
    assert_eq!(session.enter(true), Ok(()));

    // A crash handler only resets; it does not run the orderly exit.
    session.reset();
    assert_eq!(session.modes.raw, before.raw);
    assert_eq!(session.modes.alternate, before.alternate);
    assert_eq!(session.modes.mouse, before.mouse);
    // Reset leaves the cursor flag alone; only exit shows the cursor.
    assert!(session.modes.cursor_hidden);
}

#[test]
fn reset_is_idempotent() {
    let mut session = TerminalSession::new();
    assert_eq!(session.enter(true), Ok(()));

    session.reset();
    let after_first = session.modes;
    let phase_after_first = session.phase;

    session.reset();
    assert_eq!(session.modes, after_first);
    assert_eq!(session.phase, phase_after_first);
}

#[test]
fn reset_is_safe_before_enter() {
    let mut session = TerminalSession::new();
    let before = session.modes;
    session.reset();
    assert_eq!(session.modes, before);
    assert_eq!(session.phase, Phase::Created);
}

#[test]
fn reset_flags_restores_full_screen_modes() {
    let entered = ModeFlags::entered();
    let after = reset_flags(entered);
    assert!(!after.raw);
    assert!(!after.alternate);
    assert!(!after.mouse);
    assert!(after.cursor_hidden);

    let untouched = ModeFlags::restored();
    assert_eq!(reset_flags(untouched), untouched);
}
