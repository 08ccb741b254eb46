use shell_bridge::lifecycle::{
    closes_application, logging_plan, Action, Event, InitializationError, Lifecycle, LogLevel, Phase,
    WindowEvent,
};

fn close(label: &str) -> Event {
    Event::Window { label: String::from(label), event: WindowEvent::CloseRequested }
}

fn running() -> Lifecycle {
    let mut controller = Lifecycle::new();
    assert_eq!(controller.handle(Event::SetupSucceeded), Action::Serve);
    controller
}

#[test]
fn logging_is_installed_in_debug_builds_only() {
    assert_eq!(logging_plan(true), Some(LogLevel::Debug));
    assert_eq!(logging_plan(false), None);
}

#[test]
fn only_closing_the_primary_window_ends_the_process() {
    assert!(closes_application("main", WindowEvent::CloseRequested));
    assert!(!closes_application("main", WindowEvent::Other));
    assert!(!closes_application("settings", WindowEvent::CloseRequested));
    assert!(!closes_application("Main", WindowEvent::CloseRequested));
    assert!(!closes_application("", WindowEvent::CloseRequested));
    assert!(!closes_application("main2", WindowEvent::CloseRequested));
    assert!(!closes_application("settings", WindowEvent::Other));
}

#[test]
fn controller_starts_in_starting() {
    let controller = Lifecycle::new();
    assert_eq!(controller.phase(), Phase::Starting);
    assert!(!controller.accepts_invocations());
}

#[test]
fn successful_setup_starts_serving() {
    let controller = running();
    assert_eq!(controller.phase(), Phase::Running);
    assert!(controller.accepts_invocations());
}

#[test]
fn failed_setup_aborts_before_serving() {
    let mut controller = Lifecycle::new();
    let error = InitializationError { message: String::from("plugin refused") };
    assert_eq!(controller.handle(Event::SetupFailed(error.clone())), Action::Abort(error));
    assert_eq!(controller.phase(), Phase::Terminated);
    assert!(!controller.accepts_invocations());
    assert_eq!(controller.handle(Event::SetupSucceeded), Action::Continue);
    assert_eq!(controller.phase(), Phase::Terminated);
    assert_eq!(controller.handle(close("main")), Action::Continue);
    assert_eq!(controller.phase(), Phase::Terminated);
}

#[test]
fn closing_main_exits_with_code_zero() {
    let mut controller = running();
    assert_eq!(controller.handle(close("main")), Action::Exit(0));
    assert_eq!(controller.phase(), Phase::ShuttingDown);
    assert!(!controller.accepts_invocations());
    assert_eq!(controller.handle(Event::ExitCompleted), Action::Continue);
    assert_eq!(controller.phase(), Phase::Terminated);
}

#[test]
fn closing_another_window_keeps_running() {
    let mut controller = running();
    assert_eq!(controller.handle(close("settings")), Action::Continue);
    assert_eq!(controller.phase(), Phase::Running);
    assert_eq!(controller.handle(close("")), Action::Continue);
    assert_eq!(controller.phase(), Phase::Running);
    assert!(controller.accepts_invocations());
}

#[test]
fn other_events_on_main_keep_running() {
    let mut controller = running();
    let moved = Event::Window { label: String::from("main"), event: WindowEvent::Other };
    assert_eq!(controller.handle(moved), Action::Continue);
    assert_eq!(controller.phase(), Phase::Running);
}

#[test]
fn second_close_is_without_effect() {
    let mut controller = running();
    assert_eq!(controller.handle(close("main")), Action::Exit(0));
    assert_eq!(controller.handle(close("main")), Action::Continue);
    assert_eq!(controller.phase(), Phase::ShuttingDown);
    assert_eq!(controller.handle(Event::ExitCompleted), Action::Continue);
    assert_eq!(controller.handle(close("main")), Action::Continue);
    assert_eq!(controller.phase(), Phase::Terminated);
}

#[test]
fn window_events_before_setup_are_without_effect() {
    let mut controller = Lifecycle::new();
    assert_eq!(controller.handle(close("main")), Action::Continue);
    assert_eq!(controller.phase(), Phase::Starting);
    assert_eq!(controller.handle(Event::ExitCompleted), Action::Continue);
    assert_eq!(controller.phase(), Phase::Starting);
}

#[test]
fn setup_events_while_running_are_without_effect() {
    let mut controller = running();
    assert_eq!(controller.handle(Event::SetupSucceeded), Action::Continue);
    let error = InitializationError { message: String::from("late") };
    assert_eq!(controller.handle(Event::SetupFailed(error)), Action::Continue);
    assert_eq!(controller.handle(Event::ExitCompleted), Action::Continue);
    assert_eq!(controller.phase(), Phase::Running);
}
