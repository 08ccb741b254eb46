//! The life of the process, from its start to its end.
//!
//! The process starts, runs its one-time setup, serves until the primary
//! window is closed, and then ends at once. The controller in this file
//! decides; the host carries out: it hands each event to
//! [`Lifecycle::handle`] and performs the action that comes back.

use crate::text::same_text;
use vstd::prelude::*;

verus! {

/// Where the process stands.
#[derive(Debug, Clone, Copy, PartialEq, Eq, Structural)]
pub enum Phase {
    /// Setup has not finished; no window is shown.
    Starting,
    /// Windows are shown and invocations are answered.
    Running,
    /// The primary window was closed; the process is about to end.
    ShuttingDown,
    /// The process has ended. Nothing happens after this.
    Terminated,
}

/// A threshold of verbosity for diagnostic logging.
#[derive(Debug, Clone, Copy, PartialEq, Eq, Structural)]
pub enum LogLevel {
    Off,
    Error,
    Warn,
    Info,
    Debug,
    Trace,
}

/// What happened to a window.
#[derive(Debug, Clone, Copy, PartialEq, Eq, Structural)]
pub enum WindowEvent {
    /// The user asked to close the window.
    CloseRequested,
    /// Anything else: moved, resized, focused and the like.
    Other,
}

/// A setup that failed. It is fatal: the process never serves.
#[derive(Debug, Clone, PartialEq, Eq)]
pub struct InitializationError {
    pub message: String,
}

/// What the host reports to the controller.
#[derive(Debug, Clone, PartialEq, Eq)]
pub enum Event {
    /// Setup ran to its end.
    SetupSucceeded,
    /// Setup failed.
    SetupFailed(InitializationError),
    /// Something happened to the window with this label.
    Window { label: String, event: WindowEvent },
    /// The exit that the controller asked for has taken place.
    ExitCompleted,
}

/// What the controller asks of the host.
#[derive(Debug, Clone, PartialEq, Eq)]
pub enum Action {
    /// Nothing.
    Continue,
    /// Show the windows and answer invocations.
    Serve,
    /// End the process at once with this exit code, without waiting for
    /// invocations that are still running.
    Exit(i32),
    /// Make the error known as fatal and end the process with a failure
    /// status, without a window having been shown.
    Abort(InitializationError),
}

/// An [`Event`] as a mathematical value.
pub enum EventModel {
    SetupSucceeded,
    SetupFailed(Seq<char>),
    Window { label: Seq<char>, event: WindowEvent },
    ExitCompleted,
}

/// An [`Action`] as a mathematical value.
pub enum ActionModel {
    Continue,
    Serve,
    Exit(i32),
    Abort(Seq<char>),
}

impl View for Event {
    type V = EventModel;

    open spec fn view(&self) -> EventModel {
        match self {
            Event::SetupSucceeded => EventModel::SetupSucceeded,
            Event::SetupFailed(error) => EventModel::SetupFailed(error.message@),
            Event::Window { label, event } => EventModel::Window { label: label@, event: *event },
            Event::ExitCompleted => EventModel::ExitCompleted,
        }
    }
}

impl View for Action {
    type V = ActionModel;

    open spec fn view(&self) -> ActionModel {
        match self {
            Action::Continue => ActionModel::Continue,
            Action::Serve => ActionModel::Serve,
            Action::Exit(code) => ActionModel::Exit(*code),
            Action::Abort(error) => ActionModel::Abort(error.message@),
        }
    }
}

/// The label of the primary window.
pub open spec fn primary_label() -> Seq<char> {
    "main"@
}

/// Whether a window event ends the process: only a request to close the
/// primary window does.
pub open spec fn ends_process(label: Seq<char>, event: WindowEvent) -> bool {
    event == WindowEvent::CloseRequested && label == primary_label()
}

/// The phase after an event, and the action that the event calls for.
pub open spec fn step(phase: Phase, event: EventModel) -> (Phase, ActionModel) {
    match (phase, event) {
        (Phase::Starting, EventModel::SetupSucceeded) => (Phase::Running, ActionModel::Serve),
        (Phase::Starting, EventModel::SetupFailed(message)) => (
            Phase::Terminated,
            ActionModel::Abort(message),
        ),
        (Phase::Running, EventModel::Window { label, event }) => if ends_process(label, event) {
            (Phase::ShuttingDown, ActionModel::Exit(0))
        } else {
            (Phase::Running, ActionModel::Continue)
        },
        (Phase::ShuttingDown, EventModel::ExitCompleted) => (
            Phase::Terminated,
            ActionModel::Continue,
        ),
        _ => (phase, ActionModel::Continue),
    }
}

/// The logging that setup installs: at the threshold `Debug` in a debug
/// build, none in a production build.
pub fn logging_plan(debug_build: bool) -> (plan: Option<LogLevel>)
    ensures
        plan == if debug_build {
            Some(LogLevel::Debug)
        } else {
            None
        },
{
    if debug_build {
        Some(LogLevel::Debug)
    } else {
        None
    }
}

/// Whether the event `event` on the window `label` ends the process.
pub fn closes_application(label: &str, event: WindowEvent) -> (ends: bool)
    ensures
        ends == ends_process(label@, event),
{
    match event {
        WindowEvent::CloseRequested => same_text(label, "main"),
        WindowEvent::Other => false,
    }
}

/// The controller of the process's life.
#[derive(Debug)]
pub struct Lifecycle {
    phase: Phase,
}

impl View for Lifecycle {
    type V = Phase;

    closed spec fn view(&self) -> Phase {
        self.phase
    }
}

impl Lifecycle {
    /// A controller at the start of the process.
    pub fn new() -> (controller: Lifecycle)
        ensures
            controller@ == Phase::Starting,
    {
        Lifecycle { phase: Phase::Starting }
    }

    /// Where the process stands.
    pub fn phase(&self) -> (phase: Phase)
        ensures
            phase == self@,
    {
        self.phase
    }

    /// Whether invocations are answered.
    pub fn accepts_invocations(&self) -> (accepts: bool)
        ensures
            accepts == (self@ == Phase::Running),
    {
        self.phase == Phase::Running
    }

    /// Takes note of an event and says what the host must do.
    pub fn handle(&mut self, event: Event) -> (action: Action)
        ensures
            (final(self)@, action@) == step(old(self)@, event@),
    {
        match (self.phase, event) {
            (Phase::Starting, Event::SetupSucceeded) => {
                self.phase = Phase::Running;
                Action::Serve
            },
            (Phase::Starting, Event::SetupFailed(error)) => {
                self.phase = Phase::Terminated;
                Action::Abort(error)
            },
            (Phase::Running, Event::Window { label, event }) => {
                if closes_application(label.as_str(), event) {
                    self.phase = Phase::ShuttingDown;
                    Action::Exit(0)
                } else {
                    Action::Continue
                }
            },
            (Phase::ShuttingDown, Event::ExitCompleted) => {
                self.phase = Phase::Terminated;
                Action::Continue
            },
            _ => Action::Continue,
        }
    }
}

/// How far along its life the process is.
pub open spec fn rank(phase: Phase) -> nat {
    match phase {
        Phase::Starting => 0,
        Phase::Running => 1,
        Phase::ShuttingDown => 2,
        Phase::Terminated => 3,
    }
}

/// The phase reached from `phase` once all of `events` were handled, first
/// to last.
pub open spec fn phase_after(phase: Phase, events: Seq<EventModel>) -> Phase
    decreases events.len(),
{
    if events.len() == 0 {
        phase
    } else {
        step(phase_after(phase, events.drop_last()), events.last()).0
    }
}

/// The action that the event at index `k` calls for, when `events` are
/// handled first to last from `phase`.
pub open spec fn action_at(phase: Phase, events: Seq<EventModel>, k: int) -> ActionModel {
    step(phase_after(phase, events.take(k)), events[k]).1
}

/// The process never goes back to an earlier phase.
pub proof fn lemma_phases_only_advance(phase: Phase, events: Seq<EventModel>)
    ensures
        rank(phase) <= rank(phase_after(phase, events)),
    decreases events.len(),
{
    if events.len() > 0 {
        lemma_phases_only_advance(phase, events.drop_last());
    }
}

/// Once the process has ended, every event is without effect: a second
/// request to close changes nothing and asks for nothing.
pub proof fn lemma_terminated_is_final(event: EventModel)
    ensures
        step(Phase::Terminated, event) == (Phase::Terminated, ActionModel::Continue),
{
}

/// While the process is shutting down, window events are without effect.
pub proof fn lemma_close_is_idempotent(label: Seq<char>, event: WindowEvent)
    ensures
        step(Phase::ShuttingDown, EventModel::Window { label, event }) == (
            Phase::ShuttingDown,
            ActionModel::Continue,
        ),
{
}

/// The process is told to exit in one case only: it is running and the
/// primary window is asked to close. The exit code is then 0 and the process
/// is shutting down. Closing a window with any other label, and any other
/// window event, leaves a running process running.
pub proof fn lemma_exit_only_on_primary_close(phase: Phase, event: EventModel)
    ensures
        step(phase, event).1 is Exit <==> phase == Phase::Running && (event matches EventModel::Window {
            label,
            event: e,
        } && e == WindowEvent::CloseRequested && label == primary_label()),
        step(phase, event).1 is Exit ==> step(phase, event) == (
            Phase::ShuttingDown,
            ActionModel::Exit(0),
        ),
        phase == Phase::Running && event is Window && !(step(phase, event).1 is Exit) ==> step(
            phase,
            event,
        ) == (Phase::Running, ActionModel::Continue),
{
}

/// The process begins to serve in one case only: it is starting and setup
/// has succeeded. No other step leads into the running phase.
pub proof fn lemma_serves_only_after_setup(phase: Phase, event: EventModel)
    ensures
        step(phase, event).1 is Serve <==> phase == Phase::Starting && event is SetupSucceeded,
        step(phase, event).0 == Phase::Running ==> phase == Phase::Running || (phase
            == Phase::Starting && event is SetupSucceeded),
{
}

/// A failed setup is fatal. When the first event of a starting process is
/// the failure of its setup, the process is told to abort with the error,
/// it has ended from then on, it is never told to serve, and it never
/// reaches the running phase.
pub proof fn lemma_failed_setup_is_fatal(message: Seq<char>, events: Seq<EventModel>)
    requires
        events.len() > 0,
        events[0] == EventModel::SetupFailed(message),
    ensures
        action_at(Phase::Starting, events, 0) == ActionModel::Abort(message),
        forall|k: int|
            1 <= k <= events.len() ==> #[trigger] phase_after(Phase::Starting, events.take(k))
                == Phase::Terminated,
        forall|k: int|
            1 <= k < events.len() ==> #[trigger] action_at(Phase::Starting, events, k)
                == ActionModel::Continue,
{
    assert(events.take(0).len() == 0);
    assert forall|k: int| 1 <= k <= events.len() implies #[trigger] phase_after(
        Phase::Starting,
        events.take(k),
    ) == Phase::Terminated by {
        lemma_terminated_after_failure(message, events, k);
    }
}

/// After a failed setup as the first event, the process has ended at every
/// later point.
proof fn lemma_terminated_after_failure(message: Seq<char>, events: Seq<EventModel>, k: int)
    requires
        1 <= k <= events.len(),
        events[0] == EventModel::SetupFailed(message),
    ensures
        phase_after(Phase::Starting, events.take(k)) == Phase::Terminated,
    decreases k,
{
    let prefix = events.take(k);
    assert(prefix.drop_last() =~= events.take(k - 1));
    assert(prefix.last() == events[k - 1]);
    if k == 1 {
        assert(events.take(0).len() == 0);
    } else {
        lemma_terminated_after_failure(message, events, k - 1);
    }
}

} // verus!
