use openrgb_daemon::cancel::{CancellationAuthority, Reason};
use openrgb_daemon::config::{command_arguments, Configuration};
use openrgb_daemon::session::{Action, Event, RunnerState, Session, SupervisionOutcome};

fn line(s: &str) -> String {
    s.to_string()
}

#[test]
fn cancel_exit_then_reload_keeps_exit() {
    let mut c = CancellationAuthority::new();
    assert!(!c.is_cancelled());
    c.cancel(Reason::Exit);
    assert!(c.is_cancelled());
    c.cancel(Reason::Reload);
    assert!(c.is_cancelled());
    assert_eq!(c.reason(), Some(Reason::Exit));
}

#[test]
fn cancel_reload_then_exit_keeps_reload() {
    let mut c = CancellationAuthority::new();
    assert_eq!(c.reason(), None);
    c.cancel(Reason::Reload);
    c.cancel(Reason::Exit);
    c.cancel(Reason::Exit);
    assert!(c.is_cancelled());
    assert_eq!(c.reason(), Some(Reason::Reload));
}

#[test]
fn hello_then_natural_exit_is_exit() {
    assert!(command_arguments(&Configuration::default()).is_empty());
    let mut s = Session::new();
    let mut infos = Vec::new();
    match s.handle(Event::StdoutLine(line("hello"))) {
        Action::LogInfo(l) => infos.push(l),
        other => panic!("unexpected {:?}", other),
    }
    assert!(matches!(s.handle(Event::ChildExited), Action::Nothing));
    assert_eq!(infos, vec![line("hello")]);
    assert!(s.is_finished());
    assert_eq!(s.runner(), RunnerState::Exited);
    assert_eq!(s.outcome(), Some(SupervisionOutcome::Exit));
}

#[test]
fn hangup_before_exit_kills_and_reloads() {
    let mut s = Session::new();
    assert!(matches!(s.handle(Event::Hangup), Action::KillChild));
    assert_eq!(s.reason(), Some(Reason::Reload));
    assert!(!s.is_finished());
    assert_eq!(s.outcome(), None);
    assert!(matches!(s.handle(Event::StdoutLine(line("late"))), Action::Nothing));
    assert!(!s.is_finished());
    assert!(matches!(s.handle(Event::KillFinished), Action::Nothing));
    assert_eq!(s.runner(), RunnerState::Killed);
    assert_eq!(s.outcome(), Some(SupervisionOutcome::Reload));
}

#[test]
fn stream_order_is_kept_per_stream() {
    let mut s = Session::new();
    let events = vec![
        Event::StdoutLine(line("o1")),
        Event::StderrLine(line("e1")),
        Event::StdoutLine(line("o2")),
        Event::StderrLine(line("e2")),
        Event::StderrLine(line("e3")),
        Event::StdoutLine(line("o3")),
    ];
    let mut infos = Vec::new();
    let mut errors = Vec::new();
    for e in events {
        match s.handle(e) {
            Action::LogInfo(l) => infos.push(l),
            Action::LogError(l) => errors.push(l),
            other => panic!("unexpected {:?}", other),
        }
    }
    assert_eq!(infos, vec![line("o1"), line("o2"), line("o3")]);
    assert_eq!(errors, vec![line("e1"), line("e2"), line("e3")]);
    assert!(!s.is_cancelled());
}

#[test]
fn natural_exit_before_signal_never_kills() {
    let mut s = Session::new();
    s.handle(Event::StderrLine(line("warming up")));
    s.handle(Event::ChildExited);
    for e in [Event::Hangup, Event::Interrupt, Event::Terminate, Event::KillFinished] {
        assert!(matches!(s.handle(e), Action::Nothing));
    }
    assert_eq!(s.reason(), Some(Reason::Exit));
    assert_eq!(s.outcome(), Some(SupervisionOutcome::Exit));
}

#[test]
fn interrupt_then_exit_race_tears_down_once() {
    let mut s = Session::new();
    assert!(matches!(s.handle(Event::Interrupt), Action::KillChild));
    assert!(matches!(s.handle(Event::ChildExited), Action::Nothing));
    assert!(matches!(s.handle(Event::KillFinished), Action::Nothing));
    assert!(matches!(s.handle(Event::Terminate), Action::Nothing));
    assert_eq!(s.runner(), RunnerState::Killed);
    assert_eq!(s.outcome(), Some(SupervisionOutcome::Exit));
}

#[test]
fn exit_then_interrupt_race_tears_down_once() {
    let mut s = Session::new();
    assert!(matches!(s.handle(Event::ChildExited), Action::Nothing));
    assert!(matches!(s.handle(Event::Interrupt), Action::Nothing));
    assert_eq!(s.runner(), RunnerState::Exited);
    assert_eq!(s.outcome(), Some(SupervisionOutcome::Exit));
}

#[test]
fn terminate_then_hangup_stays_exit() {
    let mut s = Session::new();
    assert!(matches!(s.handle_exit(), Action::KillChild));
    assert!(matches!(s.handle_reload(), Action::Nothing));
    assert!(matches!(s.handle(Event::KillFinished), Action::Nothing));
    assert_eq!(s.reason(), Some(Reason::Exit));
    assert_eq!(s.outcome(), Some(SupervisionOutcome::Exit));
}

#[test]
fn second_hangup_asks_no_second_kill() {
    let mut s = Session::new();
    assert!(matches!(s.handle_reload(), Action::KillChild));
    assert!(matches!(s.handle_reload(), Action::Nothing));
    assert!(matches!(s.handle(Event::ChildExited), Action::Nothing));
    assert_eq!(s.runner(), RunnerState::Killed);
    assert_eq!(s.outcome(), Some(SupervisionOutcome::Reload));
}
