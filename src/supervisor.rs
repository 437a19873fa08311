use vstd::prelude::*;

verus! {

/// The lifecycle of the backend process.
#[derive(Clone, Copy, PartialEq, Eq, Structural, Debug)]
pub enum Phase {
    /// No backend has been spawned yet.
    NotStarted,
    /// The backend was spawned; `pid` is the one handle to it.
    Running { pid: u32 },
    /// The backend was killed when the window closed.
    Terminated,
}

/// What the application reports to the supervisor.
#[derive(Clone, Copy, PartialEq, Eq, Structural, Debug)]
pub enum Event {
    /// The backend process was spawned with process id `pid`.
    Spawned { pid: u32 },
    /// The backend process could not be spawned (or its log file not created).
    SpawnFailed,
    /// The main window is closing.
    CloseRequested,
    /// A kill request failed, most often because the process had already exited.
    KillFailed,
    /// The script runner could not launch its interpreter.
    ScriptLaunchFailed,
}

/// What the supervisor asks the application to do.
#[derive(Clone, Copy, PartialEq, Eq, Structural, Debug)]
pub enum Action {
    /// Nothing.
    Nothing,
    /// Abort startup before any window is shown.
    AbortStartup,
    /// Kill the process `pid` at once, with no grace period.
    Kill { pid: u32 },
}

/// The phase and action that follow `event` in `phase`.
pub open spec fn step(phase: Phase, event: Event) -> (Phase, Action) {
    match (phase, event) {
        (Phase::NotStarted, Event::Spawned { pid }) => (Phase::Running { pid }, Action::Nothing),
        (Phase::NotStarted, Event::SpawnFailed) => (Phase::NotStarted, Action::AbortStartup),
        (_, Event::Spawned { pid }) => (phase, Action::Kill { pid }),
        (Phase::Running { pid }, Event::CloseRequested) => (Phase::Terminated, Action::Kill { pid }),
        _ => (phase, Action::Nothing),
    }
}

/// The phase after `events`, taken in order from `phase`.
pub open spec fn run(phase: Phase, events: Seq<Event>) -> Phase
    decreases events.len(),
{
    if events.len() == 0 {
        phase
    } else {
        run(step(phase, events[0]).0, events.drop_first())
    }
}

/// The number of backend handles that `phase` holds.
pub open spec fn handle_count(phase: Phase) -> nat {
    match phase {
        Phase::Running { .. } => 1,
        _ => 0,
    }
}

/// Owns the backend's handle for the application and decides what to do on each event.
pub struct Supervisor {
    phase: Phase,
}

impl View for Supervisor {
    type V = Phase;

    closed spec fn view(&self) -> Phase {
        self.phase
    }
}

impl Supervisor {
    /// A supervisor before the backend is spawned.
    pub fn new() -> (r: Supervisor)
        ensures
            r@ == Phase::NotStarted,
    {
        Supervisor { phase: Phase::NotStarted }
    }

    /// The current phase.
    pub fn phase(&self) -> (r: Phase)
        ensures
            r == self@,
    {
        self.phase
    }

    /// Records `event` and returns what the application must do about it.
    pub fn handle(&mut self, event: Event) -> (r: Action)
        ensures
            (final(self)@, r) == step(old(self)@, event),
    {
        let (next, action) = match (self.phase, event) {
            (Phase::NotStarted, Event::Spawned { pid }) => (Phase::Running { pid }, Action::Nothing),
            (Phase::NotStarted, Event::SpawnFailed) => (Phase::NotStarted, Action::AbortStartup),
            (_, Event::Spawned { pid }) => (self.phase, Action::Kill { pid }),
            (Phase::Running { pid }, Event::CloseRequested) => (
                Phase::Terminated,
                Action::Kill { pid },
            ),
            _ => (self.phase, Action::Nothing),
        };
        self.phase = next;
        action
    }

    /// Records that the main window is closing; returns the kill to perform, if any.
    pub fn on_window_close(&mut self) -> (r: Action)
        ensures
            (final(self)@, r) == step(old(self)@, Event::CloseRequested),
    {
        self.handle(Event::CloseRequested)
    }
}

/// A successful spawn at startup leaves the backend running under its handle; a
/// failed one aborts startup and holds no handle.
pub proof fn lemma_startup(pid: u32)
    ensures
        step(Phase::NotStarted, Event::Spawned { pid }) == (Phase::Running { pid }, Action::Nothing),
        step(Phase::NotStarted, Event::SpawnFailed) == (Phase::NotStarted, Action::AbortStartup),
        handle_count(step(Phase::NotStarted, Event::SpawnFailed).0) == 0,
{
}

/// No sequence of events ever leaves more than one backend handle.
pub proof fn lemma_at_most_one_handle(phase: Phase, events: Seq<Event>)
    ensures
        handle_count(run(phase, events)) <= 1,
{
}

/// After a successful startup, and until the window closes, exactly one backend
/// handle exists, the one the spawn gave, whatever else happens.
pub proof fn lemma_one_handle_until_close(pid: u32, events: Seq<Event>)
    requires
        forall|i: int| 0 <= i < events.len() ==> events[i] != Event::CloseRequested,
    ensures
        run(Phase::NotStarted, seq![Event::Spawned { pid }] + events) == (Phase::Running { pid }),
        handle_count(run(Phase::NotStarted, seq![Event::Spawned { pid }] + events)) == 1,
{
    let all = seq![Event::Spawned { pid }] + events;
    assert(all.drop_first() =~= events);
    lemma_running_stays(pid, events);
}

proof fn lemma_running_stays(pid: u32, events: Seq<Event>)
    requires
        forall|i: int| 0 <= i < events.len() ==> events[i] != Event::CloseRequested,
    ensures
        run(Phase::Running { pid }, events) == (Phase::Running { pid }),
    decreases events.len(),
{
    if events.len() > 0 {
        assert(events[0] != Event::CloseRequested);
        assert forall|i: int| 0 <= i < events.drop_first().len() implies events.drop_first()[i]
            != Event::CloseRequested by {
            assert(events.drop_first()[i] == events[i + 1]);
        }
        lemma_running_stays(pid, events.drop_first());
    }
}

/// Closing the window twice is the same as closing it once: the second close
/// changes nothing and asks for nothing, and a failed kill is ignored.
pub proof fn lemma_close_idempotent(phase: Phase)
    ensures
        step(step(phase, Event::CloseRequested).0, Event::CloseRequested) == (
            step(phase, Event::CloseRequested).0,
            Action::Nothing,
        ),
        step(step(phase, Event::CloseRequested).0, Event::KillFailed) == (
            step(phase, Event::CloseRequested).0,
            Action::Nothing,
        ),
{
}

/// A script whose interpreter cannot be launched leaves the backend's state as
/// it was, and a later close still kills a running backend.
pub proof fn lemma_script_failure_keeps_backend(phase: Phase)
    ensures
        step(phase, Event::ScriptLaunchFailed) == (phase, Action::Nothing),
        phase matches Phase::Running { pid } ==> step(
            step(phase, Event::ScriptLaunchFailed).0,
            Event::CloseRequested,
        ) == (Phase::Terminated, Action::Kill { pid }),
{
}

} // verus!
