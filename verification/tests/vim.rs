use hydroxite::vim::{vim_step, VimAction, VimKey, VimState};

fn type_command(cmd: &str) -> (VimState, VimAction) {
    let mut s = VimState::Normal;
    let mut a;
    (s, a) = vim_step(s, VimKey::Char(':'));
    assert_eq!(a, VimAction::Idle);
    for c in cmd.chars() {
        (s, a) = vim_step(s, VimKey::Char(c));
        assert_eq!(a, VimAction::Idle);
    }
    vim_step(s, VimKey::Enter)
}

#[test]
fn normal_to_insert_and_back() {
    let (s, a) = vim_step(VimState::Normal, VimKey::Char('i'));
    assert_eq!(a, VimAction::Idle);
    assert!(matches!(s, VimState::Insert));
    let (s, a) = vim_step(s, VimKey::Escape);
    assert_eq!(a, VimAction::Idle);
    assert!(matches!(s, VimState::Normal));
}

#[test]
fn normal_ignores_other_keys() {
    let (s, a) = vim_step(VimState::Normal, VimKey::Char('x'));
    assert_eq!(a, VimAction::Idle);
    assert!(matches!(s, VimState::Normal));
    let (s, a) = vim_step(VimState::Normal, VimKey::Enter);
    assert_eq!(a, VimAction::Idle);
    assert!(matches!(s, VimState::Normal));
}

#[test]
fn colon_enters_command_mode() {
    let (s, a) = vim_step(VimState::Normal, VimKey::Char(':'));
    assert_eq!(a, VimAction::Idle);
    match s {
        VimState::Command(buf) => assert!(buf.is_empty()),
        _ => panic!("expected command mode"),
    }
}

#[test]
fn command_w_saves() {
    let (s, a) = type_command("w");
    assert_eq!(a, VimAction::SaveFile);
    assert!(matches!(s, VimState::Normal));
}

#[test]
fn command_q_quits() {
    let (_, a) = type_command("q");
    assert_eq!(a, VimAction::QuitApp);
}

#[test]
fn command_wq_saves_and_quits() {
    let (_, a) = type_command("wq");
    assert_eq!(a, VimAction::SaveAndQuit);
}

#[test]
fn unknown_command_does_nothing() {
    let (s, a) = type_command("qw");
    assert_eq!(a, VimAction::Idle);
    assert!(matches!(s, VimState::Normal));
}

#[test]
fn escape_leaves_command_mode() {
    let (s, _) = vim_step(VimState::Normal, VimKey::Char(':'));
    let (s, _) = vim_step(s, VimKey::Char('w'));
    let (s, a) = vim_step(s, VimKey::Escape);
    assert_eq!(a, VimAction::Idle);
    assert!(matches!(s, VimState::Normal));
}
