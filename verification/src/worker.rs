//! The capture worker: one chunk on one tab, one target after the other.
//!
//! The worker does no I/O. It says what to do next; whoever drives it
//! does that and tells it what happened.

use vstd::prelude::*;
use crate::outcome::{CaptureOutcome, OutcomeView};
use crate::target::Target;

verus! {

/// What the worker is waiting for.
#[derive(Debug, Clone, Copy, PartialEq, Eq, Structural)]
pub enum Phase {
    /// Not started.
    Ready,
    /// The reachability probe of the current target is under way.
    Probing,
    /// The tab is loading the current target.
    Navigating,
    /// The screenshot is being taken and stored.
    Capturing,
    /// The page title is being read.
    FetchingTitle,
    /// The outcome of the current target is being reported.
    Reporting,
    /// Every target has its outcome.
    Finished,
}

/// What happened outside since the last action.
#[derive(Debug, PartialEq, Eq)]
pub enum Event {
    /// The worker was started on its tab.
    Begin,
    /// The probe was answered with this HTTP status.
    ProbeAnswered { status: u16 },
    /// The probe failed before the time was up.
    ProbeFailed { cause: String },
    /// The probe did not complete within the timeout.
    ProbeTimedOut,
    /// The tab loaded the URL.
    Navigated,
    /// The tab could not load the URL.
    NavigateFailed { cause: String },
    /// The screenshot is on disk.
    Captured,
    /// Taking or storing the screenshot failed.
    CaptureFailed { cause: String },
    /// The title was asked for; `None` where it could not be had.
    Title { title: Option<String> },
    /// The outcome was handed to the reporter.
    Reported,
}

/// What the driver is to do next. Targets are named by their place in the chunk.
#[derive(Debug, PartialEq, Eq)]
pub enum Action {
    /// Fetch the target's URL, giving up after `timeout_secs` seconds.
    Probe { target: usize, timeout_secs: u64 },
    /// Load the target's URL in the tab.
    Navigate { target: usize },
    /// Take a full-page PNG and store it under the target's file name.
    Capture { target: usize },
    /// Read the page title.
    FetchTitle { target: usize },
    /// Hand the outcome to the reporter.
    Emit { target: usize, outcome: CaptureOutcome },
    /// Nothing is left to do.
    Finish,
}

/// An `Action` with its outcome as a view.
pub enum ActionView {
    Probe { target: int, timeout_secs: u64 },
    Navigate { target: int },
    Capture { target: int },
    FetchTitle { target: int },
    Emit { target: int, outcome: OutcomeView },
    Finish,
}

impl View for Action {
    type V = ActionView;

    open spec fn view(&self) -> ActionView {
        match *self {
            Action::Probe { target, timeout_secs } => ActionView::Probe {
                target: target as int,
                timeout_secs,
            },
            Action::Navigate { target } => ActionView::Navigate { target: target as int },
            Action::Capture { target } => ActionView::Capture { target: target as int },
            Action::FetchTitle { target } => ActionView::FetchTitle { target: target as int },
            Action::Emit { target, outcome } => ActionView::Emit {
                target: target as int,
                outcome: outcome@,
            },
            Action::Finish => ActionView::Finish,
        }
    }
}

/// The error of `Worker::step`.
#[derive(Debug, Clone, Copy, PartialEq, Eq, Structural)]
pub enum WorkerError {
    /// The event is not one that the worker is waiting for.
    OutOfTurn,
}

/// The worker as a mathematical value.
pub struct WorkerState {
    /// The URLs of the chunk, in order.
    pub targets: Seq<Seq<char>>,
    /// The place of the current target.
    pub cursor: int,
    pub phase: Phase,
    /// The HTTP status that the probe of the current target gave.
    pub status: u16,
    /// How many outcomes were emitted so far.
    pub reported: int,
    pub timeout_secs: u64,
}

/// What every reachable worker state satisfies: outcomes are emitted one per
/// target and in chunk order.
pub open spec fn consistent(s: WorkerState) -> bool {
    match s.phase {
        Phase::Ready => s.cursor == 0 && s.reported == 0,
        Phase::Probing | Phase::Navigating | Phase::Capturing | Phase::FetchingTitle => 0
            <= s.cursor < s.targets.len() && s.reported == s.cursor,
        Phase::Reporting => 0 <= s.cursor < s.targets.len() && s.reported == s.cursor + 1,
        Phase::Finished => s.cursor == s.targets.len() && s.reported == s.targets.len(),
    }
}

/// Whether a worker in `phase` is waiting for `event`.
pub open spec fn awaited(phase: Phase, event: Event) -> bool {
    match phase {
        Phase::Ready => event is Begin,
        Phase::Probing => event is ProbeAnswered || event is ProbeFailed || event is ProbeTimedOut,
        Phase::Navigating => event is Navigated || event is NavigateFailed,
        Phase::Capturing => event is Captured || event is CaptureFailed,
        Phase::FetchingTitle => event is Title,
        Phase::Reporting => event is Reported,
        Phase::Finished => false,
    }
}

/// Turning to the target at `place`: probe it, or finish where there is none.
pub open spec fn turn_to(s: WorkerState, place: int) -> (WorkerState, ActionView) {
    if place < s.targets.len() {
        (
            WorkerState { cursor: place, phase: Phase::Probing, ..s },
            ActionView::Probe { target: place, timeout_secs: s.timeout_secs },
        )
    } else {
        (WorkerState { cursor: place, phase: Phase::Finished, ..s }, ActionView::Finish)
    }
}

/// Closing the current target with `outcome`.
pub open spec fn settle(s: WorkerState, outcome: OutcomeView) -> (WorkerState, ActionView) {
    (
        WorkerState { phase: Phase::Reporting, reported: s.reported + 1, ..s },
        ActionView::Emit { target: s.cursor, outcome },
    )
}

/// The title that is reported: the page's, or the empty string.
pub open spec fn title_or_empty(title: Option<String>) -> Seq<char> {
    match title {
        Some(t) => t@,
        None => Seq::empty(),
    }
}

/// The state after an awaited `event`, and the action that answers it.
pub open spec fn next(s: WorkerState, event: Event) -> (WorkerState, ActionView) {
    match event {
        Event::Begin => turn_to(s, 0),
        Event::ProbeAnswered { status } => (
            WorkerState { phase: Phase::Navigating, status, ..s },
            ActionView::Navigate { target: s.cursor },
        ),
        Event::ProbeTimedOut => settle(s, OutcomeView::Timeout),
        Event::Navigated => (
            WorkerState { phase: Phase::Capturing, ..s },
            ActionView::Capture { target: s.cursor },
        ),
        Event::Captured => (
            WorkerState { phase: Phase::FetchingTitle, ..s },
            ActionView::FetchTitle { target: s.cursor },
        ),
        Event::ProbeFailed { cause } | Event::NavigateFailed { cause } | Event::CaptureFailed {
            cause,
        } => settle(s, OutcomeView::ProtocolError { cause: cause@ }),
        Event::Title { title } => settle(
            s,
            OutcomeView::Success { status_code: s.status, page_title: title_or_empty(title) },
        ),
        Event::Reported => turn_to(s, s.cursor + 1),
    }
}

/// A worker that has not started on its chunk.
pub open spec fn fresh(targets: Seq<Seq<char>>, timeout_secs: u64) -> WorkerState {
    WorkerState { targets, cursor: 0, phase: Phase::Ready, status: 0, reported: 0, timeout_secs }
}

/// Whether `event` reports a failure or a timeout.
pub open spec fn is_failure(event: Event) -> bool {
    event is ProbeTimedOut || event is ProbeFailed || event is NavigateFailed
        || event is CaptureFailed
}

/// An awaited event leads from a consistent state to a consistent state,
/// and never changes the chunk or the timeout.
pub proof fn next_stays_consistent(s: WorkerState, event: Event)
    requires
        consistent(s),
        awaited(s.phase, event),
    ensures
        consistent(next(s, event).0),
        next(s, event).0.targets == s.targets,
        next(s, event).0.timeout_secs == s.timeout_secs,
        s.cursor <= next(s, event).0.cursor <= s.cursor + 1,
        next(s, event).1 is Emit <==> next(s, event).0.reported == s.reported + 1,
        !(next(s, event).1 is Emit) ==> next(s, event).0.reported == s.reported,
{
}

/// A probe that runs out of time gives exactly one `Timeout` outcome, for
/// the target that was probed.
pub proof fn timeout_gives_one_outcome(s: WorkerState)
    requires
        consistent(s),
        s.phase == Phase::Probing,
    ensures
        next(s, Event::ProbeTimedOut).1 == (ActionView::Emit {
            target: s.cursor,
            outcome: OutcomeView::Timeout,
        }),
        next(s, Event::ProbeTimedOut).0.reported == s.reported + 1,
        next(s, Event::ProbeTimedOut).0.phase == Phase::Reporting,
{
}

/// A failure or timeout on one target does not keep the worker from the
/// next: once the outcome is reported, the following target is probed, or
/// the worker finishes where the failed target was the last.
pub proof fn failure_is_isolated(s: WorkerState, event: Event)
    requires
        consistent(s),
        awaited(s.phase, event),
        is_failure(event),
    ensures
        next(s, event).1 is Emit,
        next(s, event).1->Emit_target == s.cursor,
        !(next(s, event).1->Emit_outcome is Success),
        awaited(next(s, event).0.phase, Event::Reported),
        s.cursor + 1 < s.targets.len() ==> next(next(s, event).0, Event::Reported).1 == (
        ActionView::Probe { target: s.cursor + 1, timeout_secs: s.timeout_secs }),
        s.cursor + 1 == s.targets.len() ==> next(next(s, event).0, Event::Reported).1
            == ActionView::Finish,
{
}

/// The state that a worker reaches from `s` through `events`. An event out
/// of turn changes nothing.
pub open spec fn after(s: WorkerState, events: Seq<Event>) -> WorkerState
    decreases events.len(),
{
    if events.len() == 0 {
        s
    } else {
        let before = after(s, events.drop_last());
        if awaited(before.phase, events.last()) {
            next(before, events.last()).0
        } else {
            before
        }
    }
}

/// The targets for which an outcome was emitted along `events`, in the
/// order of emission.
pub open spec fn emitted(s: WorkerState, events: Seq<Event>) -> Seq<int>
    decreases events.len(),
{
    if events.len() == 0 {
        Seq::empty()
    } else {
        let before = after(s, events.drop_last());
        let so_far = emitted(s, events.drop_last());
        if awaited(before.phase, events.last()) && next(before, events.last()).1 is Emit {
            so_far.push(next(before, events.last()).1->Emit_target)
        } else {
            so_far
        }
    }
}

/// Whatever happens to a worker, it emits outcomes for the targets of its
/// chunk in chunk order, none twice and none skipped; once it has finished,
/// every target has had its one outcome.
pub proof fn one_outcome_per_target(
    targets: Seq<Seq<char>>,
    timeout_secs: u64,
    events: Seq<Event>,
)
    ensures
        consistent(after(fresh(targets, timeout_secs), events)),
        after(fresh(targets, timeout_secs), events).targets == targets,
        emitted(fresh(targets, timeout_secs), events) == Seq::new(
            after(fresh(targets, timeout_secs), events).reported as nat,
            |i: int| i,
        ),
        emitted(fresh(targets, timeout_secs), events).len() <= targets.len(),
        after(fresh(targets, timeout_secs), events).phase == Phase::Finished ==> emitted(
            fresh(targets, timeout_secs),
            events,
        ).len() == targets.len(),
    decreases events.len(),
{
    let start = fresh(targets, timeout_secs);
    if events.len() == 0 {
        assert(emitted(start, events) =~= Seq::new(0, |i: int| i));
    } else {
        one_outcome_per_target(targets, timeout_secs, events.drop_last());
        let before = after(start, events.drop_last());
        let so_far = emitted(start, events.drop_last());
        if awaited(before.phase, events.last()) {
            next_stays_consistent(before, events.last());
            let end = next(before, events.last()).0;
            if next(before, events.last()).1 is Emit {
                assert(so_far.push(before.cursor) =~= Seq::new(end.reported as nat, |i: int| i));
            }
        }
    }
}

/// One chunk, the tab's place in it, and what is awaited.
pub struct Worker {
    chunk: Vec<Target>,
    progress: Progress,
    timeout_secs: u64,
}

/// Where the worker stands in its chunk.
#[derive(Clone, Copy)]
struct Progress {
    cursor: usize,
    phase: Phase,
    status: u16,
    reported: usize,
}

impl View for Worker {
    type V = WorkerState;

    closed spec fn view(&self) -> WorkerState {
        WorkerState {
            targets: self.chunk.deep_view(),
            cursor: self.progress.cursor as int,
            phase: self.progress.phase,
            status: self.progress.status,
            reported: self.progress.reported as int,
            timeout_secs: self.timeout_secs,
        }
    }
}

impl Worker {
    #[verifier::type_invariant]
    spec fn sound(&self) -> bool {
        consistent(self@)
    }

    /// A worker for `chunk` that has not started.
    pub fn new(chunk: Vec<Target>, timeout_secs: u64) -> (w: Worker)
        ensures
            w@ == fresh(chunk.deep_view(), timeout_secs),
    {
        let progress = Progress { cursor: 0, phase: Phase::Ready, status: 0, reported: 0 };
        Worker { chunk, progress, timeout_secs }
    }

    /// What the worker is waiting for.
    pub fn phase(&self) -> (p: Phase)
        ensures
            p == self@.phase,
    {
        self.progress.phase
    }

    /// The number of targets in the chunk.
    pub fn len(&self) -> (n: usize)
        ensures
            n == self@.targets.len(),
    {
        self.chunk.len()
    }

    /// The number of outcomes emitted so far. It never exceeds the number of
    /// targets, and equals it once the worker has finished.
    pub fn reported(&self) -> (n: usize)
        ensures
            n == self@.reported,
            consistent(self@),
            n <= self@.targets.len(),
            self@.phase == Phase::Finished ==> n == self@.targets.len(),
    {
        proof {
            use_type_invariant(self);
        }
        self.progress.reported
    }

    /// The target at `place` in the chunk, if there is one.
    pub fn target(&self, place: usize) -> (t: Option<&Target>)
        ensures
            match t {
                Some(t) => place < self@.targets.len() && t@ == self@.targets[place as int],
                None => place >= self@.targets.len(),
            },
    {
        if place < self.chunk.len() {
            Some(&self.chunk[place])
        } else {
            None
        }
    }

    /// Takes in what happened and says what to do next.
    ///
    /// An event that the worker is not waiting for is refused and changes
    /// nothing. A failure closes the current target only: the worker reports
    /// it and then turns to the next target.
    pub fn step(&mut self, event: Event) -> (r: Result<Action, WorkerError>)
        ensures
            consistent(old(self)@),
            consistent(final(self)@),
            match r {
                Ok(action) => awaited(old(self)@.phase, event) && final(self)@ == next(
                    old(self)@,
                    event,
                ).0 && action@ == next(old(self)@, event).1,
                Err(e) => !awaited(old(self)@.phase, event) && e == WorkerError::OutOfTurn
                    && final(self)@ == old(self)@,
            },
    {
        proof {
            use_type_invariant(&*self);
        }
        let now = self.progress;
        let at = now.cursor;
        match (now.phase, event) {
            (Phase::Ready, Event::Begin) => Ok(self.turn_to(0)),
            (Phase::Probing, Event::ProbeAnswered { status }) => {
                self.progress = Progress { phase: Phase::Navigating, status, ..now };
                Ok(Action::Navigate { target: at })
            },
            (Phase::Probing, Event::ProbeTimedOut) => Ok(self.settle(CaptureOutcome::Timeout)),
            (Phase::Probing, Event::ProbeFailed { cause }) => Ok(
                self.settle(CaptureOutcome::ProtocolError { cause }),
            ),
            (Phase::Navigating, Event::Navigated) => {
                self.progress = Progress { phase: Phase::Capturing, ..now };
                Ok(Action::Capture { target: at })
            },
            (Phase::Navigating, Event::NavigateFailed { cause }) => Ok(
                self.settle(CaptureOutcome::ProtocolError { cause }),
            ),
            (Phase::Capturing, Event::Captured) => {
                self.progress = Progress { phase: Phase::FetchingTitle, ..now };
                Ok(Action::FetchTitle { target: at })
            },
            (Phase::Capturing, Event::CaptureFailed { cause }) => Ok(
                self.settle(CaptureOutcome::ProtocolError { cause }),
            ),
            (Phase::FetchingTitle, Event::Title { title }) => {
                let page_title = match title {
                    Some(t) => t,
                    None => String::new(),
                };
                let status_code = now.status;
                Ok(self.settle(CaptureOutcome::Success { status_code, page_title }))
            },
            (Phase::Reporting, Event::Reported) => Ok(self.turn_to(at + 1)),
            _ => Err(WorkerError::OutOfTurn),
        }
    }

    fn turn_to(&mut self, place: usize) -> (action: Action)
        requires
            place <= old(self)@.targets.len(),
            old(self)@.reported == place,
        ensures
            final(self)@ == turn_to(old(self)@, place as int).0,
            action@ == turn_to(old(self)@, place as int).1,
    {
        let now = self.progress;
        if place < self.chunk.len() {
            self.progress = Progress { cursor: place, phase: Phase::Probing, ..now };
            Action::Probe { target: place, timeout_secs: self.timeout_secs }
        } else {
            self.progress = Progress { cursor: place, phase: Phase::Finished, ..now };
            Action::Finish
        }
    }

    fn settle(&mut self, outcome: CaptureOutcome) -> (action: Action)
        requires
            0 <= old(self)@.cursor < old(self)@.targets.len(),
            old(self)@.reported == old(self)@.cursor,
        ensures
            final(self)@ == settle(old(self)@, outcome@).0,
            action@ == settle(old(self)@, outcome@).1,
    {
        let now = self.progress;
        assert(self.chunk.deep_view().len() == self.chunk.len());
        self.progress = Progress { phase: Phase::Reporting, reported: now.reported + 1, ..now };
        Action::Emit { target: now.cursor, outcome }
    }
}

} // verus!
