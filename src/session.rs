use vstd::prelude::*;
use crate::cancel::{cancelled_with, CancellationAuthority, Reason};

verus! {

/// Where the child process runner stands.
#[derive(Clone, Copy, Debug, PartialEq, Eq, Structural)]
pub enum RunnerState {
    /// Forwarding output and watching for exit or cancellation.
    Running,
    /// Cancellation was observed; the kill is under way.
    Killing,
    /// The child exited on its own.
    Exited,
    /// The child was killed and its exit awaited.
    Killed,
}

/// Where a signal watcher stands.
#[derive(Clone, Copy, Debug, PartialEq, Eq, Structural)]
pub enum WatcherState {
    Waiting,
    /// Cancellation came first; the watcher ended without an outcome.
    Quiet,
    /// Its signal arrived first.
    Fired,
}

/// What one of the concurrently watched sources reported.
#[derive(Debug)]
pub enum Event {
    StdoutLine(String),
    StderrLine(String),
    /// The child process exited by itself.
    ChildExited,
    /// A kill that was asked for has completed (or found the child gone).
    KillFinished,
    Hangup,
    Interrupt,
    Terminate,
}

/// What the driver of a session must do after an event.
#[derive(Debug)]
pub enum Action {
    Nothing,
    /// Forward a line as an informational log record.
    LogInfo(String),
    /// Forward a line as an error log record.
    LogError(String),
    /// Kill the child, await its exit, then report `Event::KillFinished`.
    KillChild,
}

/// Why a session ended without running to its end.
#[derive(Clone, Copy, Debug, PartialEq, Eq, Structural)]
pub enum SessionFailure {
    Spawn,
    CaptureOutput,
    SignalSetup,
}

/// The terminal result of one supervision session.
#[derive(Clone, Copy, Debug, PartialEq, Eq, Structural)]
pub enum SupervisionOutcome {
    Reload,
    Exit,
    Failure(SessionFailure),
}

/// The mathematical state of a session.
pub struct SessionView {
    pub cancel: Option<Reason>,
    pub runner: RunnerState,
    pub reload_watcher: WatcherState,
    pub exit_watcher: WatcherState,
}

pub open spec fn initial() -> SessionView {
    SessionView {
        cancel: None,
        runner: RunnerState::Running,
        reload_watcher: WatcherState::Waiting,
        exit_watcher: WatcherState::Waiting,
    }
}

/// A watcher still waiting when cancellation is raised ends quietly.
pub open spec fn observe_cancel(w: WatcherState) -> WatcherState {
    if w == WatcherState::Waiting {
        WatcherState::Quiet
    } else {
        w
    }
}

/// The state after the watcher for `reason` received its signal.
pub open spec fn after_signal(s: SessionView, reason: Reason) -> SessionView {
    SessionView {
        cancel: cancelled_with(s.cancel, reason),
        runner: if s.runner == RunnerState::Running {
            RunnerState::Killing
        } else {
            s.runner
        },
        reload_watcher: if reason == Reason::Reload {
            WatcherState::Fired
        } else {
            observe_cancel(s.reload_watcher)
        },
        exit_watcher: if reason == Reason::Exit {
            WatcherState::Fired
        } else {
            observe_cancel(s.exit_watcher)
        },
    }
}

/// A watcher reacts to its signal only while it is waiting; the runner is
/// told to kill the child only if it was still running.
pub open spec fn signal_step(s: SessionView, w: WatcherState, reason: Reason) -> (SessionView, Action) {
    if w == WatcherState::Waiting {
        (
            after_signal(s, reason),
            if s.runner == RunnerState::Running {
                Action::KillChild
            } else {
                Action::Nothing
            },
        )
    } else {
        (s, Action::Nothing)
    }
}

/// One transition of the session on one event.
pub open spec fn step(s: SessionView, e: Event) -> (SessionView, Action) {
    match e {
        Event::StdoutLine(line) => if s.runner == RunnerState::Running {
            (s, Action::LogInfo(line))
        } else {
            (s, Action::Nothing)
        },
        Event::StderrLine(line) => if s.runner == RunnerState::Running {
            (s, Action::LogError(line))
        } else {
            (s, Action::Nothing)
        },
        Event::ChildExited => if s.runner == RunnerState::Running {
            (
                SessionView {
                    cancel: cancelled_with(s.cancel, Reason::Exit),
                    runner: RunnerState::Exited,
                    reload_watcher: observe_cancel(s.reload_watcher),
                    exit_watcher: observe_cancel(s.exit_watcher),
                },
                Action::Nothing,
            )
        } else if s.runner == RunnerState::Killing {
            (SessionView { runner: RunnerState::Killed, ..s }, Action::Nothing)
        } else {
            (s, Action::Nothing)
        },
        Event::KillFinished => if s.runner == RunnerState::Killing {
            (SessionView { runner: RunnerState::Killed, ..s }, Action::Nothing)
        } else {
            (s, Action::Nothing)
        },
        Event::Hangup => signal_step(s, s.reload_watcher, Reason::Reload),
        Event::Interrupt => signal_step(s, s.exit_watcher, Reason::Exit),
        Event::Terminate => signal_step(s, s.exit_watcher, Reason::Exit),
    }
}

/// The session's invariant: cancellation is raised exactly when the runner
/// and both watchers have left their waiting states, a kill is under way or
/// done exactly when a watcher fired, and at most one watcher fired.
pub open spec fn wf(s: SessionView) -> bool {
    &&& (s.cancel.is_none() <==> s.runner == RunnerState::Running)
    &&& (s.runner == RunnerState::Running <==> s.reload_watcher == WatcherState::Waiting)
    &&& (s.runner == RunnerState::Running <==> s.exit_watcher == WatcherState::Waiting)
    &&& ((s.runner == RunnerState::Killing || s.runner == RunnerState::Killed) <==> (
    s.reload_watcher == WatcherState::Fired || s.exit_watcher == WatcherState::Fired))
    &&& !(s.reload_watcher == WatcherState::Fired && s.exit_watcher == WatcherState::Fired)
    &&& (s.reload_watcher == WatcherState::Fired ==> s.cancel == Some(Reason::Reload))
    &&& (s.exit_watcher == WatcherState::Fired ==> s.cancel == Some(Reason::Exit))
    &&& (s.runner == RunnerState::Exited ==> s.cancel == Some(Reason::Exit))
}

/// Every task has completed: the child is gone and no watcher waits.
pub open spec fn finished(s: SessionView) -> bool {
    s.runner == RunnerState::Exited || s.runner == RunnerState::Killed
}

/// Reload exactly when the reload watcher fired, else exit.
pub open spec fn outcome_of(s: SessionView) -> SupervisionOutcome {
    if s.reload_watcher == WatcherState::Fired {
        SupervisionOutcome::Reload
    } else {
        SupervisionOutcome::Exit
    }
}

/// One supervision session: the cancellation authority shared by the child
/// process runner and the two signal watchers, and where each of them stands.
pub struct Session {
    cancel: CancellationAuthority,
    runner: RunnerState,
    reload_watcher: WatcherState,
    exit_watcher: WatcherState,
}

impl View for Session {
    type V = SessionView;

    closed spec fn view(&self) -> SessionView {
        SessionView {
            cancel: self.cancel@,
            runner: self.runner,
            reload_watcher: self.reload_watcher,
            exit_watcher: self.exit_watcher,
        }
    }
}

fn observe_cancel_exec(w: WatcherState) -> (r: WatcherState)
    ensures
        r == observe_cancel(w),
{
    if w == WatcherState::Waiting {
        WatcherState::Quiet
    } else {
        w
    }
}

impl Session {
    /// A session right after the child was spawned.
    pub fn new() -> (r: Session)
        ensures
            r@ == initial(),
            wf(r@),
    {
        Session {
            cancel: CancellationAuthority::new(),
            runner: RunnerState::Running,
            reload_watcher: WatcherState::Waiting,
            exit_watcher: WatcherState::Waiting,
        }
    }

    /// The watcher of `reason` received its signal: raise cancellation
    /// (unless already raised) and let the runner and the other watcher
    /// observe it.
    fn fire(&mut self, reason: Reason) -> (r: Action)
        ensures
            final(self)@ == after_signal(old(self)@, reason),
            r == (if old(self)@.runner == RunnerState::Running {
                Action::KillChild
            } else {
                Action::Nothing
            }),
    {
        self.cancel.cancel(reason);
        let was_running = self.runner == RunnerState::Running;
        if was_running {
            self.runner = RunnerState::Killing;
        }
        match reason {
            Reason::Reload => {
                self.reload_watcher = WatcherState::Fired;
                self.exit_watcher = observe_cancel_exec(self.exit_watcher);
            },
            Reason::Exit => {
                self.exit_watcher = WatcherState::Fired;
                self.reload_watcher = observe_cancel_exec(self.reload_watcher);
            },
        }
        if was_running {
            Action::KillChild
        } else {
            Action::Nothing
        }
    }

    /// The reload watcher: a hangup arrived. Unless cancellation came first,
    /// it raises cancellation with reason reload and the session's outcome
    /// becomes reload.
    pub fn handle_reload(&mut self) -> (r: Action)
        ensures
            (final(self)@, r) == step(old(self)@, Event::Hangup),
    {
        if self.reload_watcher == WatcherState::Waiting {
            self.fire(Reason::Reload)
        } else {
            Action::Nothing
        }
    }

    /// The exit watcher: an interrupt or a terminate signal arrived. Unless
    /// cancellation came first, it raises cancellation with reason exit.
    pub fn handle_exit(&mut self) -> (r: Action)
        ensures
            (final(self)@, r) == step(old(self)@, Event::Interrupt),
            (final(self)@, r) == step(old(self)@, Event::Terminate),
    {
        if self.exit_watcher == WatcherState::Waiting {
            self.fire(Reason::Exit)
        } else {
            Action::Nothing
        }
    }

    /// The child exited by itself. A running runner records a natural exit
    /// and raises cancellation with reason exit; a runner that was killing
    /// the child takes this as the kill's completion.
    fn child_exited(&mut self) -> (r: Action)
        ensures
            (final(self)@, r) == step(old(self)@, Event::ChildExited),
    {
        if self.runner == RunnerState::Running {
            self.cancel.cancel(Reason::Exit);
            self.runner = RunnerState::Exited;
            self.reload_watcher = observe_cancel_exec(self.reload_watcher);
            self.exit_watcher = observe_cancel_exec(self.exit_watcher);
        } else if self.runner == RunnerState::Killing {
            self.runner = RunnerState::Killed;
        }
        Action::Nothing
    }

    /// Applies one event and says what must be done next.
    pub fn handle(&mut self, event: Event) -> (r: Action)
        ensures
            (final(self)@, r) == step(old(self)@, event),
            wf(old(self)@) ==> wf(final(self)@),
    {
        proof {
            lemma_step_wf(self@, event);
        }
        match event {
            Event::StdoutLine(line) => {
                if self.runner == RunnerState::Running {
                    Action::LogInfo(line)
                } else {
                    Action::Nothing
                }
            },
            Event::StderrLine(line) => {
                if self.runner == RunnerState::Running {
                    Action::LogError(line)
                } else {
                    Action::Nothing
                }
            },
            Event::ChildExited => self.child_exited(),
            Event::KillFinished => {
                if self.runner == RunnerState::Killing {
                    self.runner = RunnerState::Killed;
                }
                Action::Nothing
            },
            Event::Hangup => self.handle_reload(),
            Event::Interrupt => self.handle_exit(),
            Event::Terminate => self.handle_exit(),
        }
    }

    pub fn runner(&self) -> (r: RunnerState)
        ensures
            r == self@.runner,
    {
        self.runner
    }

    /// The reason cancellation was raised for, if it was.
    pub fn reason(&self) -> (r: Option<Reason>)
        ensures
            r == self@.cancel,
    {
        self.cancel.reason()
    }

    pub fn is_cancelled(&self) -> (r: bool)
        ensures
            r == self@.cancel.is_some(),
    {
        self.cancel.is_cancelled()
    }

    pub fn is_finished(&self) -> (r: bool)
        ensures
            r == finished(self@),
    {
        self.runner == RunnerState::Exited || self.runner == RunnerState::Killed
    }

    /// The session's outcome once every task has completed.
    pub fn outcome(&self) -> (r: Option<SupervisionOutcome>)
        ensures
            r == (if finished(self@) {
                Some(outcome_of(self@))
            } else {
                None
            }),
    {
        if !self.is_finished() {
            None
        } else if self.reload_watcher == WatcherState::Fired {
            Some(SupervisionOutcome::Reload)
        } else {
            Some(SupervisionOutcome::Exit)
        }
    }
}

/// Every transition keeps the session's invariant.
pub proof fn lemma_step_wf(s: SessionView, e: Event)
    ensures
        wf(s) ==> wf(step(s, e).0),
{
}

/// The state reached and the actions asked for when `evs` are applied in order.
pub open spec fn run(s: SessionView, evs: Seq<Event>) -> (SessionView, Seq<Action>)
    decreases evs.len(),
{
    if evs.len() == 0 {
        (s, Seq::empty())
    } else {
        let prev = run(s, evs.drop_last());
        let next = step(prev.0, evs.last());
        (next.0, prev.1.push(next.1))
    }
}

pub open spec fn is_line(e: Event) -> bool {
    e is StdoutLine || e is StderrLine
}

/// The lines of the child's stdout among `evs`, in order.
pub open spec fn stdout_lines(evs: Seq<Event>) -> Seq<String>
    decreases evs.len(),
{
    if evs.len() == 0 {
        Seq::empty()
    } else if let Event::StdoutLine(line) = evs.last() {
        stdout_lines(evs.drop_last()).push(line)
    } else {
        stdout_lines(evs.drop_last())
    }
}

/// The lines of the child's stderr among `evs`, in order.
pub open spec fn stderr_lines(evs: Seq<Event>) -> Seq<String>
    decreases evs.len(),
{
    if evs.len() == 0 {
        Seq::empty()
    } else if let Event::StderrLine(line) = evs.last() {
        stderr_lines(evs.drop_last()).push(line)
    } else {
        stderr_lines(evs.drop_last())
    }
}

/// The lines forwarded as informational records, in order.
pub open spec fn info_records(acts: Seq<Action>) -> Seq<String>
    decreases acts.len(),
{
    if acts.len() == 0 {
        Seq::empty()
    } else if let Action::LogInfo(line) = acts.last() {
        info_records(acts.drop_last()).push(line)
    } else {
        info_records(acts.drop_last())
    }
}

/// The lines forwarded as error records, in order.
pub open spec fn error_records(acts: Seq<Action>) -> Seq<String>
    decreases acts.len(),
{
    if acts.len() == 0 {
        Seq::empty()
    } else if let Action::LogError(line) = acts.last() {
        error_records(acts.drop_last()).push(line)
    } else {
        error_records(acts.drop_last())
    }
}

/// How many times the child is told to be killed.
pub open spec fn kill_count(acts: Seq<Action>) -> nat
    decreases acts.len(),
{
    if acts.len() == 0 {
        0
    } else if acts.last() is KillChild {
        kill_count(acts.drop_last()) + 1
    } else {
        kill_count(acts.drop_last())
    }
}

pub open spec fn seen_child_exit(evs: Seq<Event>) -> bool {
    exists|i: int| 0 <= i < evs.len() && #[trigger] evs[i] is ChildExited
}

pub open spec fn seen_hangup(evs: Seq<Event>) -> bool {
    exists|i: int| 0 <= i < evs.len() && #[trigger] evs[i] is Hangup
}

pub open spec fn seen_teardown(evs: Seq<Event>) -> bool {
    exists|i: int| 0 <= i < evs.len() && (#[trigger] evs[i] is ChildExited || evs[i] is KillFinished)
}

/// Running a concatenation is running its parts one after the other.
pub proof fn lemma_run_concat(s: SessionView, a: Seq<Event>, b: Seq<Event>)
    ensures
        run(s, a + b).0 == run(run(s, a).0, b).0,
        run(s, a + b).1 == run(s, a).1 + run(run(s, a).0, b).1,
    decreases b.len(),
{
    if b.len() == 0 {
        assert(a + b =~= a);
        assert(run(s, a).1 + Seq::<Action>::empty() =~= run(s, a).1);
    } else {
        assert((a + b).drop_last() =~= a + b.drop_last());
        assert((a + b).last() == b.last());
        lemma_run_concat(s, a, b.drop_last());
        let mid = run(s, a);
        let tail = run(mid.0, b.drop_last());
        let last = step(tail.0, b.last());
        assert(mid.1 + tail.1.push(last.1) =~= (mid.1 + tail.1).push(last.1));
    }
}

/// Lines within each stream are forwarded in the order the child wrote
/// them, however stdout and stderr interleave, while the runner is running.
pub proof fn lemma_stream_order(s: SessionView, evs: Seq<Event>)
    requires
        s.runner == RunnerState::Running,
        forall|i: int| 0 <= i < evs.len() ==> is_line(#[trigger] evs[i]),
    ensures
        run(s, evs).0 == s,
        info_records(run(s, evs).1) == stdout_lines(evs),
        error_records(run(s, evs).1) == stderr_lines(evs),
    decreases evs.len(),
{
    if evs.len() > 0 {
        lemma_stream_order(s, evs.drop_last());
        assert(is_line(evs[evs.len() - 1]));
        let acts = run(s, evs.drop_last()).1;
        let last = step(s, evs.last()).1;
        assert(acts.push(last).drop_last() =~= acts);
    }
}

/// From the start of a session, whatever the events: the invariant holds, the
/// child is told to be killed at most once, and exactly when the runner took
/// the kill path rather than the natural exit; once the child has exited the
/// session is finished; without a hangup the outcome is not reload.
pub proof fn lemma_single_teardown(evs: Seq<Event>)
    ensures
        wf(run(initial(), evs).0),
        kill_count(run(initial(), evs).1) <= 1,
        kill_count(run(initial(), evs).1) == 1 <==> (run(initial(), evs).0.runner
            == RunnerState::Killing || run(initial(), evs).0.runner == RunnerState::Killed),
        seen_child_exit(evs) ==> finished(run(initial(), evs).0),
        !seen_hangup(evs) ==> outcome_of(run(initial(), evs).0) == SupervisionOutcome::Exit,
    decreases evs.len(),
{
    if evs.len() > 0 {
        let prev = evs.drop_last();
        lemma_single_teardown(prev);
        lemma_step_wf(run(initial(), prev).0, evs.last());
        let acts = run(initial(), prev).1;
        let last = step(run(initial(), prev).0, evs.last()).1;
        assert(acts.push(last).drop_last() =~= acts);
        if seen_child_exit(evs) && !(evs.last() is ChildExited) {
            let i = choose|i: int| 0 <= i < evs.len() && #[trigger] evs[i] is ChildExited;
            assert(prev[i] is ChildExited);
        }
        if seen_hangup(prev) {
            let i = choose|i: int| 0 <= i < prev.len() && #[trigger] prev[i] is Hangup;
            assert(evs[i] is Hangup);
        }
    }
}

proof fn lemma_run_one(s: SessionView, e: Event)
    ensures
        run(s, seq![e]).0 == step(s, e).0,
        run(s, seq![e]).1 == seq![step(s, e).1],
{
    let one = seq![e];
    assert(one.drop_last() =~= Seq::<Event>::empty());
    assert(one.last() == e);
    assert(run(s, one.drop_last()).0 == s);
    assert(Seq::<Action>::empty().push(step(s, e).1) =~= seq![step(s, e).1]);
}

/// A finished session stays as it is, whatever comes after.
proof fn lemma_finished_stays(s: SessionView, evs: Seq<Event>)
    requires
        wf(s),
        finished(s),
    ensures
        run(s, evs).0 == s,
    decreases evs.len(),
{
    if evs.len() > 0 {
        lemma_finished_stays(s, evs.drop_last());
    }
}

/// While the kill is under way nothing but its completion (or the child's
/// exit) moves the session, and that move ends it as killed.
proof fn lemma_killing_until_teardown(s: SessionView, evs: Seq<Event>)
    requires
        wf(s),
        s.runner == RunnerState::Killing,
    ensures
        run(s, evs).0.cancel == s.cancel,
        run(s, evs).0.reload_watcher == s.reload_watcher,
        run(s, evs).0.exit_watcher == s.exit_watcher,
        run(s, evs).0.runner == (if seen_teardown(evs) {
            RunnerState::Killed
        } else {
            RunnerState::Killing
        }),
    decreases evs.len(),
{
    if evs.len() > 0 {
        let prev = evs.drop_last();
        lemma_killing_until_teardown(s, prev);
        if seen_teardown(prev) {
            let i = choose|i: int|
                0 <= i < prev.len() && (#[trigger] prev[i] is ChildExited || prev[i] is KillFinished);
            assert(evs[i] is ChildExited || evs[i] is KillFinished);
        }
        if seen_teardown(evs) && !(evs.last() is ChildExited || evs.last() is KillFinished) {
            let i = choose|i: int|
                0 <= i < evs.len() && (#[trigger] evs[i] is ChildExited || evs[i] is KillFinished);
            assert(prev[i] is ChildExited || prev[i] is KillFinished);
        }
    }
}

/// If the child exits on its own before any signal arrives (only output
/// lines come before), the session is finished with outcome exit and the
/// child is never told to be killed, whatever comes after.
pub proof fn lemma_exit_before_signal(pre: Seq<Event>, rest: Seq<Event>)
    requires
        forall|i: int| 0 <= i < pre.len() ==> is_line(#[trigger] pre[i]),
    ensures
        ({
            let r = run(initial(), pre + seq![Event::ChildExited] + rest);
            &&& finished(r.0)
            &&& r.0.runner == RunnerState::Exited
            &&& outcome_of(r.0) == SupervisionOutcome::Exit
            &&& kill_count(r.1) == 0
        }),
{
    let head = pre + seq![Event::ChildExited];
    lemma_stream_order(initial(), pre);
    lemma_run_concat(initial(), pre, seq![Event::ChildExited]);
    lemma_run_one(initial(), Event::ChildExited);
    let exited = run(initial(), head).0;
    lemma_finished_stays(exited, rest);
    lemma_run_concat(initial(), head, rest);
    lemma_single_teardown(head + rest);
}

/// If a hangup arrives before the child exits (only output lines come
/// before), the child is told to be killed right then, exactly once; the
/// session is not finished until the kill has completed, and then ends as
/// killed with outcome reload.
pub proof fn lemma_hangup_before_exit(pre: Seq<Event>, rest: Seq<Event>)
    requires
        forall|i: int| 0 <= i < pre.len() ==> is_line(#[trigger] pre[i]),
    ensures
        run(initial(), pre + seq![Event::Hangup]).1.last() is KillChild,
        ({
            let r = run(initial(), pre + seq![Event::Hangup] + rest);
            &&& kill_count(r.1) == 1
            &&& outcome_of(r.0) == SupervisionOutcome::Reload
            &&& r.0.cancel == Some(Reason::Reload)
            &&& finished(r.0) <==> seen_teardown(rest)
            &&& finished(r.0) ==> r.0.runner == RunnerState::Killed
        }),
{
    let head = pre + seq![Event::Hangup];
    lemma_stream_order(initial(), pre);
    lemma_run_concat(initial(), pre, seq![Event::Hangup]);
    lemma_run_one(initial(), Event::Hangup);
    let killing = run(initial(), head).0;
    lemma_killing_until_teardown(killing, rest);
    lemma_run_concat(initial(), head, rest);
    lemma_single_teardown(head + rest);
}

pub open spec fn seen_exit_signal(evs: Seq<Event>) -> bool {
    exists|i: int| 0 <= i < evs.len() && (#[trigger] evs[i] is Interrupt || evs[i] is Terminate)
}

/// When an interrupt (or terminate) and the child's own exit race, in
/// either order and with no hangup, the session ends with outcome exit after
/// exactly one teardown: either the child was told to be killed once and
/// ended killed, or it was never told and ended by exiting.
pub proof fn lemma_exit_race(evs: Seq<Event>)
    requires
        seen_exit_signal(evs),
        seen_child_exit(evs),
        !seen_hangup(evs),
    ensures
        ({
            let r = run(initial(), evs);
            &&& finished(r.0)
            &&& outcome_of(r.0) == SupervisionOutcome::Exit
            &&& (r.0.runner == RunnerState::Killed <==> kill_count(r.1) == 1)
            &&& (r.0.runner == RunnerState::Exited <==> kill_count(r.1) == 0)
        }),
{
    lemma_single_teardown(evs);
}

/// Whatever the events, the lines forwarded from each stream are the lines
/// the child wrote to it, in order, up to the point where the runner stopped:
/// all of them while it is still running.
pub proof fn lemma_forwarded_prefix(evs: Seq<Event>)
    ensures
        ({
            let r = run(initial(), evs);
            &&& info_records(r.1).len() <= stdout_lines(evs).len()
            &&& info_records(r.1) == stdout_lines(evs).take(info_records(r.1).len() as int)
            &&& error_records(r.1).len() <= stderr_lines(evs).len()
            &&& error_records(r.1) == stderr_lines(evs).take(error_records(r.1).len() as int)
            &&& r.0.runner == RunnerState::Running ==> info_records(r.1) == stdout_lines(evs)
                && error_records(r.1) == stderr_lines(evs)
        }),
    decreases evs.len(),
{
    if evs.len() == 0 {
        assert(Seq::<String>::empty().take(0) =~= Seq::<String>::empty());
    } else {
        let prev = evs.drop_last();
        lemma_forwarded_prefix(prev);
        let r = run(initial(), prev);
        let next = step(r.0, evs.last());
        assert(r.1.push(next.1).drop_last() =~= r.1);
        let info = info_records(r.1);
        let out = stdout_lines(prev);
        let errs = error_records(r.1);
        let err_out = stderr_lines(prev);
        if r.0.runner == RunnerState::Running {
            assert(info =~= out.take(info.len() as int));
            assert(errs =~= err_out.take(errs.len() as int));
        }
        match evs.last() {
            Event::StdoutLine(l) => {
                assert(out.push(l).take(info.len() as int) =~= out.take(info.len() as int));
                if r.0.runner == RunnerState::Running {
                    assert(out.push(l).take(info.len() + 1int) =~= info.push(l));
                }
            },
            Event::StderrLine(l) => {
                assert(err_out.push(l).take(errs.len() as int) =~= err_out.take(errs.len() as int));
                if r.0.runner == RunnerState::Running {
                    assert(err_out.push(l).take(errs.len() + 1int) =~= errs.push(l));
                }
            },
            _ => {},
        }
    }
}

} // verus!
