use ruc_auth::keys::{event_command, key_command, InputEvent, KeyCode, KeyCommand, KeyEventKind};
use ruc_auth::session::{Action, Event, Fault, Outcome, Phase, Session, POLL_TIMEOUT_MS};

fn press(code: KeyCode) -> Event {
    Event::Input(InputEvent::Key { code, kind: KeyEventKind::Press })
}

fn running() -> Session {
    let (mut s, first) = Session::start();
    assert_eq!(first, Action::EnterMode);
    assert_eq!(s.step(Event::ModeEntered), Action::DrawFrame);
    s
}

#[test]
fn quit_and_escape_keys_quit() {
    assert_eq!(key_command(KeyCode::Char('q')), KeyCommand::Quit);
    assert_eq!(key_command(KeyCode::Esc), KeyCommand::Quit);
}

#[test]
fn help_key_is_reserved() {
    assert_eq!(key_command(KeyCode::Char('h')), KeyCommand::Help);
}

#[test]
fn other_keys_are_ignored() {
    assert_eq!(key_command(KeyCode::Char('Q')), KeyCommand::Ignore);
    assert_eq!(key_command(KeyCode::Char('x')), KeyCommand::Ignore);
    assert_eq!(key_command(KeyCode::Other), KeyCommand::Ignore);
}

#[test]
fn only_presses_count() {
    let release = InputEvent::Key { code: KeyCode::Char('q'), kind: KeyEventKind::Release };
    let repeat = InputEvent::Key { code: KeyCode::Esc, kind: KeyEventKind::Repeat };
    assert_eq!(event_command(release), KeyCommand::Ignore);
    assert_eq!(event_command(repeat), KeyCommand::Ignore);
    assert_eq!(event_command(InputEvent::Other), KeyCommand::Ignore);
    let press_q = InputEvent::Key { code: KeyCode::Char('q'), kind: KeyEventKind::Press };
    assert_eq!(event_command(press_q), KeyCommand::Quit);
}

#[test]
fn clean_quit_restores_once() {
    let mut s = running();
    assert_eq!(s.step(Event::FrameDrawn), Action::PollInput { timeout_ms: 50 });
    assert_eq!(s.step(Event::NoInput), Action::DrawFrame);
    assert_eq!(s.step(Event::FrameDrawn), Action::PollInput { timeout_ms: 50 });
    assert_eq!(s.step(press(KeyCode::Char('q'))), Action::RestoreMode);
    assert!(s.should_quit);
    assert_eq!(s.phase, Phase::Quitting);
    assert_eq!(s.step(Event::ModeRestored), Action::Finish(Outcome::Completed));
    assert_eq!(s.restorations, 1);
    assert!(s.is_finished());
}

#[test]
fn escape_ends_loop_within_one_iteration() {
    let mut s = running();
    s.step(Event::FrameDrawn);
    assert_eq!(s.step(press(KeyCode::Esc)), Action::RestoreMode);
    assert!(s.should_quit);
}

#[test]
fn neutral_keys_keep_running() {
    let mut s = running();
    for ev in [
        press(KeyCode::Char('h')),
        press(KeyCode::Char('a')),
        press(KeyCode::Other),
        Event::Input(InputEvent::Key { code: KeyCode::Char('q'), kind: KeyEventKind::Release }),
        Event::Input(InputEvent::Other),
        Event::NoInput,
    ] {
        assert_eq!(s.step(Event::FrameDrawn), Action::PollInput { timeout_ms: POLL_TIMEOUT_MS });
        assert_eq!(s.step(ev), Action::DrawFrame);
        assert!(!s.should_quit);
        assert_eq!(s.restorations, 0);
    }
}

#[test]
fn poll_timeout_is_fifty_ms() {
    assert_eq!(POLL_TIMEOUT_MS, 50);
    let mut s = running();
    assert_eq!(s.step(Event::FrameDrawn), Action::PollInput { timeout_ms: 50 });
}

#[test]
fn draw_failure_still_restores() {
    let mut s = running();
    assert_eq!(s.step(Event::DrawFailed), Action::RestoreMode);
    assert!(!s.should_quit);
    assert_eq!(s.step(Event::ModeRestored), Action::Finish(Outcome::Failed(Fault::Draw)));
    assert_eq!(s.restorations, 1);
}

#[test]
fn poll_failure_still_restores() {
    let mut s = running();
    s.step(Event::FrameDrawn);
    assert_eq!(s.step(Event::PollFailed), Action::RestoreMode);
    assert_eq!(s.step(Event::ModeRestored), Action::Finish(Outcome::Failed(Fault::Poll)));
    assert_eq!(s.restorations, 1);
}

#[test]
fn first_error_wins_over_restore_error() {
    let mut s = running();
    s.step(Event::DrawFailed);
    assert_eq!(s.step(Event::RestoreFailed), Action::Finish(Outcome::Failed(Fault::Draw)));
}

#[test]
fn restore_failure_after_quit_is_reported() {
    let mut s = running();
    s.step(Event::FrameDrawn);
    s.step(press(KeyCode::Char('q')));
    assert_eq!(s.step(Event::RestoreFailed), Action::Finish(Outcome::Failed(Fault::Restore)));
}

#[test]
fn enter_failure_restores_nothing() {
    let (mut s, _) = Session::start();
    assert_eq!(s.step(Event::EnterFailed), Action::Finish(Outcome::Failed(Fault::Enter)));
    assert_eq!(s.restorations, 0);
    assert!(!s.entered);
}

#[test]
fn unexpected_event_repeats_pending_action() {
    let mut s = running();
    let before = s;
    assert!(!s.awaits(&Event::NoInput));
    assert_eq!(s.step(Event::NoInput), Action::DrawFrame);
    assert_eq!(s, before);
    s.step(Event::DrawFailed);
    assert_eq!(s.step(Event::FrameDrawn), Action::RestoreMode);
    assert_eq!(s.restorations, 1);
    s.step(Event::ModeRestored);
    assert_eq!(s.step(Event::ModeRestored), Action::Finish(Outcome::Failed(Fault::Draw)));
    assert_eq!(s.restorations, 1);
}
