//! Decisions of the render worker.
//!
//! The worker owns the one rendering session of its lifetime and performs one
//! render at a time, taking commands strictly in arrival order. The caller
//! acquires the session, receives commands, runs renders and reports how each
//! went; this state machine says what to do next and keeps the record:
//! `Starting -> Idle <-> Rendering -> Stopped`, or `Starting -> Stopped` when
//! no session could be had.
use vstd::prelude::*;

use crate::metrics::Metrics;

verus! {

/// A command to the render worker.
#[derive(Clone, Copy, Debug, PartialEq, Eq, Structural)]
pub enum RenderMsg {
    /// The artifact changed: render it again.
    Trigger,
    /// Stop the worker.
    Shutdown,
}

/// Why a render failed.
#[derive(Clone, Copy, Debug, PartialEq, Eq, Structural)]
pub enum RenderFailure {
    /// The rendering engine could not be launched.
    Launch,
    /// The artifact's location could not be resolved.
    Resolve,
    /// The engine could not open or load the artifact.
    Navigation,
    /// The engine could not produce the output.
    Generation,
    /// The output could not be written to its destination.
    Write,
}

/// How one render went.
#[derive(Clone, Copy, Debug, PartialEq, Eq, Structural)]
pub enum RenderOutcome {
    Succeeded { duration_us: u64, pdf_size: u64 },
    Failed { duration_us: u64, failure: RenderFailure },
}

#[derive(Clone, Copy, Debug, PartialEq, Eq, Structural)]
pub enum WorkerState {
    /// The session is being acquired.
    Starting,
    /// Waiting for the next command.
    Idle,
    /// One render is in progress.
    Rendering,
    /// Finished; no further command is taken.
    Stopped,
}

/// What the caller does next.
#[derive(Clone, Copy, Debug, PartialEq, Eq, Structural)]
pub enum WorkerAction {
    /// Wait for the next command.
    Wait,
    /// Perform one render, then report its outcome.
    Render,
    /// Release the session and end the worker.
    Exit,
}

/// The worker's abstract state: where it stands, how many renders it has
/// started (counted as in its log, wrapping around), and how many renders were
/// started and finished over its lifetime.
pub struct WorkerView {
    pub state: WorkerState,
    pub render_count: u64,
    pub started: nat,
    pub finished: nat,
}

impl WorkerView {
    /// Renders in progress.
    pub open spec fn in_flight(self) -> int {
        self.started - self.finished
    }

    /// Every started render has finished, except the one in progress while
    /// rendering.
    pub open spec fn wf(self) -> bool {
        self.in_flight() == if self.state == WorkerState::Rendering { 1int } else { 0int }
    }
}

/// The state after an idle worker takes `cmd`, or learns that no command
/// will come any more (`None`), and the action that follows.
pub open spec fn after_command(v: WorkerView, cmd: Option<RenderMsg>) -> (WorkerView, WorkerAction) {
    match cmd {
        Some(RenderMsg::Trigger) => (
            WorkerView {
                state: WorkerState::Rendering,
                render_count: v.render_count.wrapping_add(1),
                started: v.started + 1,
                ..v
            },
            WorkerAction::Render,
        ),
        _ => (WorkerView { state: WorkerState::Stopped, ..v }, WorkerAction::Exit),
    }
}

/// The state after the render in progress finishes, whatever its outcome.
pub open spec fn after_render(v: WorkerView, outcome: RenderOutcome) -> WorkerView {
    WorkerView { state: WorkerState::Idle, finished: v.finished + 1, ..v }
}

/// What the metrics sink holds after recording `outcome`.
pub open spec fn recorded(m: Metrics, outcome: RenderOutcome) -> Metrics {
    match outcome {
        RenderOutcome::Succeeded { duration_us, pdf_size } => m.after_render(duration_us, pdf_size),
        RenderOutcome::Failed { duration_us, .. } => m.after_render_failure(duration_us),
    }
}

/// An idle worker served `cmds` in order, the i-th render that it starts
/// ending with `outcomes[i]`: the state it ends in and how many renders it
/// performed.
pub open spec fn serve(v: WorkerView, cmds: Seq<RenderMsg>, outcomes: Seq<RenderOutcome>) -> (WorkerView, nat)
    decreases cmds.len(),
{
    if v.state != WorkerState::Idle || cmds.len() == 0 {
        (v, 0)
    } else {
        let (next, action) = after_command(v, Some(cmds[0]));
        if action == WorkerAction::Render {
            let (end, n) = serve(after_render(next, outcomes[0]), cmds.drop_first(), outcomes.drop_first());
            (end, n + 1)
        } else {
            (next, 0)
        }
    }
}

/// Position of the first `Shutdown` in `cmds`, or its length when there is
/// none.
pub open spec fn first_shutdown(cmds: Seq<RenderMsg>) -> nat
    decreases cmds.len(),
{
    if cmds.len() == 0 {
        0
    } else if cmds[0] == RenderMsg::Shutdown {
        0
    } else {
        1 + first_shutdown(cmds.drop_first())
    }
}

/// The render worker's state machine.
pub struct RenderWorker {
    state: WorkerState,
    render_count: u64,
    started: Ghost<nat>,
    finished: Ghost<nat>,
}

impl View for RenderWorker {
    type V = WorkerView;

    closed spec fn view(&self) -> WorkerView {
        WorkerView {
            state: self.state,
            render_count: self.render_count,
            started: self.started@,
            finished: self.finished@,
        }
    }
}

impl RenderWorker {
    /// A worker about to acquire its session.
    pub fn new() -> (r: RenderWorker)
        ensures
            r@ == (WorkerView { state: WorkerState::Starting, render_count: 0, started: 0, finished: 0 }),
            r@.wf(),
    {
        RenderWorker { state: WorkerState::Starting, render_count: 0, started: Ghost(0), finished: Ghost(0) }
    }

    pub fn state(&self) -> (r: WorkerState)
        ensures
            r == self@.state,
    {
        self.state
    }

    /// Renders started so far, wrapping around past `u64::MAX`.
    pub fn render_count(&self) -> (r: u64)
        ensures
            r == self@.render_count,
    {
        self.render_count
    }

    /// Reports whether the session could be acquired. Without one the worker
    /// stops at once and takes no command.
    pub fn session_started(&mut self, acquired: bool) -> (r: WorkerAction)
        requires
            old(self)@.state == WorkerState::Starting,
            old(self)@.wf(),
        ensures
            final(self)@.wf(),
            acquired ==> r == WorkerAction::Wait && final(self)@ == (WorkerView { state: WorkerState::Idle, ..old(self)@ }),
            !acquired ==> r == WorkerAction::Exit && final(self)@ == (WorkerView { state: WorkerState::Stopped, ..old(self)@ }),
    {
        if acquired {
            self.state = WorkerState::Idle;
            WorkerAction::Wait
        } else {
            self.state = WorkerState::Stopped;
            WorkerAction::Exit
        }
    }

    /// Takes the next command, or `None` when the command queue was closed
    /// (which stops the worker like `Shutdown`).
    pub fn on_command(&mut self, cmd: Option<RenderMsg>) -> (r: WorkerAction)
        requires
            old(self)@.state == WorkerState::Idle,
            old(self)@.wf(),
        ensures
            final(self)@.wf(),
            (final(self)@, r) == after_command(old(self)@, cmd),
    {
        match cmd {
            Some(RenderMsg::Trigger) => {
                self.state = WorkerState::Rendering;
                self.render_count = self.render_count.wrapping_add(1);
                self.started = Ghost(self.started@ + 1);
                WorkerAction::Render
            },
            _ => {
                self.state = WorkerState::Stopped;
                WorkerAction::Exit
            },
        }
    }

    /// Reports how the render in progress went and records it. A failure is
    /// counted and the worker goes back to waiting for commands.
    pub fn render_finished(&mut self, outcome: RenderOutcome, metrics: &mut Metrics)
        requires
            old(self)@.state == WorkerState::Rendering,
            old(self)@.wf(),
        ensures
            final(self)@.wf(),
            final(self)@ == after_render(old(self)@, outcome),
            *final(metrics) == recorded(*old(metrics), outcome),
    {
        self.state = WorkerState::Idle;
        self.finished = Ghost(self.finished@ + 1);
        match outcome {
            RenderOutcome::Succeeded { duration_us, pdf_size } => metrics.record_render(duration_us, pdf_size),
            RenderOutcome::Failed { duration_us, .. } => metrics.record_render_failure(duration_us),
        }
    }
}

/// No two renders are ever in progress at once: in every well-formed state at
/// most one render has started and not finished, and a render starts only
/// from the idle state, where none is in progress.
pub proof fn lemma_at_most_one_render(v: WorkerView, cmd: Option<RenderMsg>)
    requires
        v.wf(),
    ensures
        0 <= v.in_flight() <= 1,
        v.state == WorkerState::Idle ==> v.in_flight() == 0 && after_command(v, cmd).0.in_flight() <= 1,
{
}

/// A failed render does not stop the worker: it goes back to idle and the
/// next `Trigger` starts another render.
pub proof fn lemma_failure_not_fatal(v: WorkerView, duration_us: u64, failure: RenderFailure)
    requires
        v.state == WorkerState::Rendering,
    ensures
        ({
            let after = after_render(v, RenderOutcome::Failed { duration_us, failure });
            &&& after.state == WorkerState::Idle
            &&& after_command(after, Some(RenderMsg::Trigger)).1 == WorkerAction::Render
        }),
{
}

/// An idle worker serving a queue of commands performs one render for each
/// `Trigger` before the first `Shutdown`, whatever the renders' outcomes, and
/// none after it; it ends stopped exactly when the queue holds a `Shutdown`,
/// and idle otherwise.
pub proof fn lemma_serve_until_shutdown(v: WorkerView, cmds: Seq<RenderMsg>, outcomes: Seq<RenderOutcome>)
    requires
        v.state == WorkerState::Idle,
        v.wf(),
    ensures
        serve(v, cmds, outcomes).1 == first_shutdown(cmds),
        serve(v, cmds, outcomes).0.wf(),
        serve(v, cmds, outcomes).0.state == (if cmds.contains(RenderMsg::Shutdown) {
            WorkerState::Stopped
        } else {
            WorkerState::Idle
        }),
    decreases cmds.len(),
{
    if cmds.len() > 0 {
        let rest = cmds.drop_first();
        if cmds[0] == RenderMsg::Trigger {
            let (next, _) = after_command(v, Some(cmds[0]));
            lemma_serve_until_shutdown(after_render(next, outcomes[0]), rest, outcomes.drop_first());
            if cmds.contains(RenderMsg::Shutdown) {
                let i = choose|i: int| 0 <= i < cmds.len() && cmds[i] == RenderMsg::Shutdown;
                assert(rest[i - 1] == RenderMsg::Shutdown);
            }
            if rest.contains(RenderMsg::Shutdown) {
                let j = choose|j: int| 0 <= j < rest.len() && rest[j] == RenderMsg::Shutdown;
                assert(cmds[j + 1] == RenderMsg::Shutdown);
            }
        } else {
            assert(cmds.contains(RenderMsg::Shutdown)) by {
                assert(cmds[0] == RenderMsg::Shutdown);
            }
        }
    } else {
        assert(!cmds.contains(RenderMsg::Shutdown));
    }
}


/// The file URL under which the rendering engine opens the artifact at
/// absolute path `abs_path`.
pub fn file_url(abs_path: &str) -> (r: String)
    ensures
        r@ == "file://"@ + abs_path@,
{
    String::from_str("file://").concat(abs_path)
}

} // verus!
