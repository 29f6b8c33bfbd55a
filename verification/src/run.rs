//! The orchestrator of one run: the browser is found and launched, the
//! output directory prepared, the candidates read and split, one tab opened
//! per chunk and its worker started, and all workers joined.
//!
//! Like the worker it does no I/O: it names the next action and is told
//! what came of it.

use vstd::prelude::*;
use crate::partition::{plan_chunks, planned_chunks};
use crate::target::Target;
use crate::worker::{fresh, Worker, WorkerState};

verus! {

/// What the run is waiting for.
#[derive(Debug, Clone, Copy, PartialEq, Eq, Structural)]
pub enum Stage {
    /// Not started.
    Start,
    /// The browser binary is being looked for.
    CheckingBinary,
    /// The browser is being launched.
    Launching,
    /// The output directory is being created where it is absent.
    PreparingDir,
    /// The candidates are being read.
    ReadingSource,
    /// The output directory is being entered.
    EnteringDir,
    /// A tab is being opened for the first waiting chunk.
    OpeningTab,
    /// The worker for the tab just opened is being started.
    StartingWorker,
    /// All workers are running; their completion is awaited.
    Joining,
    /// The run is over.
    Done,
}

/// Why a run was aborted.
#[derive(Debug, Clone, Copy, PartialEq, Eq, Structural)]
pub enum RunError {
    /// The candidates could not be read.
    SourceUnavailable,
    /// The browser could not be launched, or a tab could not be opened.
    SessionFatal,
    /// The output directory could not be created or entered.
    OutputDirectory,
    /// A worker ended with a fault.
    WorkerFault,
}

/// What happened outside since the last action.
#[derive(Debug, PartialEq, Eq)]
pub enum RunEvent {
    Begin,
    BinaryFound,
    BinaryMissing,
    Launched,
    LaunchFailed,
    DirReady,
    DirFailed,
    SourceRead { candidates: Vec<String> },
    SourceUnavailable,
    DirEntered,
    TabOpened,
    TabFailed,
    WorkerStarted,
    Joined,
    JoinFailed,
}

/// What the driver is to do next.
pub enum RunAction {
    /// See whether the browser binary exists.
    CheckBinary,
    /// Leave with exit code 0 and nothing attempted.
    ExitQuietly,
    /// Launch the browser without sandbox, window and viewport of this size.
    Launch { width: u32, height: u32 },
    /// Create the output directory if it is absent.
    EnsureDir,
    /// Read the candidates from their source.
    ReadSource,
    /// Make the output directory the working directory.
    EnterDir,
    /// Open the tab with this number.
    OpenTab { tab: usize },
    /// Start this worker on the tab with this number.
    StartWorker { tab: usize, worker: Worker },
    /// Wait until every worker has finished.
    JoinAll,
    /// Print the summary line; the run succeeded.
    Summarise,
    /// Give up the run.
    Abort { error: RunError },
}

/// A `RunAction` with its worker as a view.
pub enum RunActionView {
    CheckBinary,
    ExitQuietly,
    Launch { width: u32, height: u32 },
    EnsureDir,
    ReadSource,
    EnterDir,
    OpenTab { tab: int },
    StartWorker { tab: int, worker: WorkerState },
    JoinAll,
    Summarise,
    Abort { error: RunError },
}

impl View for RunAction {
    type V = RunActionView;

    open spec fn view(&self) -> RunActionView {
        match *self {
            RunAction::CheckBinary => RunActionView::CheckBinary,
            RunAction::ExitQuietly => RunActionView::ExitQuietly,
            RunAction::Launch { width, height } => RunActionView::Launch { width, height },
            RunAction::EnsureDir => RunActionView::EnsureDir,
            RunAction::ReadSource => RunActionView::ReadSource,
            RunAction::EnterDir => RunActionView::EnterDir,
            RunAction::OpenTab { tab } => RunActionView::OpenTab { tab: tab as int },
            RunAction::StartWorker { tab, worker } => RunActionView::StartWorker {
                tab: tab as int,
                worker: worker@,
            },
            RunAction::JoinAll => RunActionView::JoinAll,
            RunAction::Summarise => RunActionView::Summarise,
            RunAction::Abort { error } => RunActionView::Abort { error },
        }
    }
}

/// The run as a mathematical value.
pub struct RunState {
    pub stage: Stage,
    /// The chunks that have no tab yet, in order.
    pub waiting: Seq<Seq<Seq<char>>>,
    /// The number of workers handed out so far.
    pub started: int,
    pub tabs: nat,
    pub width: u32,
    pub height: u32,
    pub timeout_secs: u64,
}

/// What every reachable run satisfies: chunks exist only once the source is
/// read, a tab is opened only for a chunk that waits, and tabs and workers
/// together never exceed the tab count.
pub open spec fn consistent_run(s: RunState) -> bool {
    &&& s.tabs >= 1
    &&& 0 <= s.started
    &&& s.started + s.waiting.len() <= s.tabs
    &&& match s.stage {
        Stage::Start | Stage::CheckingBinary | Stage::Launching | Stage::PreparingDir
        | Stage::ReadingSource => s.started == 0 && s.waiting.len() == 0,
        Stage::OpeningTab => s.waiting.len() > 0,
        Stage::Joining => s.waiting.len() == 0,
        _ => true,
    }
}

/// Whether a run at `stage` is waiting for `event`.
pub open spec fn run_awaited(stage: Stage, event: RunEvent) -> bool {
    match stage {
        Stage::Start => event is Begin,
        Stage::CheckingBinary => event is BinaryFound || event is BinaryMissing,
        Stage::Launching => event is Launched || event is LaunchFailed,
        Stage::PreparingDir => event is DirReady || event is DirFailed,
        Stage::ReadingSource => event is SourceRead || event is SourceUnavailable,
        Stage::EnteringDir => event is DirEntered || event is DirFailed,
        Stage::OpeningTab => event is TabOpened || event is TabFailed,
        Stage::StartingWorker => event is WorkerStarted,
        Stage::Joining => event is Joined || event is JoinFailed,
        Stage::Done => false,
    }
}

/// Moving to `stage` with `action`.
pub open spec fn go(s: RunState, stage: Stage, action: RunActionView) -> (RunState, RunActionView) {
    (RunState { stage, ..s }, action)
}

/// Ending the run with `error`.
pub open spec fn abort(s: RunState, error: RunError) -> (RunState, RunActionView) {
    go(s, Stage::Done, RunActionView::Abort { error })
}

/// The next tab is opened while a chunk waits; then the workers are joined.
pub open spec fn open_or_join(s: RunState) -> (RunState, RunActionView) {
    if s.waiting.len() > 0 {
        go(s, Stage::OpeningTab, RunActionView::OpenTab { tab: s.started })
    } else {
        go(s, Stage::Joining, RunActionView::JoinAll)
    }
}

/// The state after an awaited `event`, and the action that answers it.
pub open spec fn run_next(s: RunState, event: RunEvent) -> (RunState, RunActionView) {
    match event {
        RunEvent::Begin => go(s, Stage::CheckingBinary, RunActionView::CheckBinary),
        RunEvent::BinaryFound => go(
            s,
            Stage::Launching,
            RunActionView::Launch { width: s.width, height: s.height },
        ),
        RunEvent::BinaryMissing => go(s, Stage::Done, RunActionView::ExitQuietly),
        RunEvent::Launched => go(s, Stage::PreparingDir, RunActionView::EnsureDir),
        RunEvent::DirReady => go(s, Stage::ReadingSource, RunActionView::ReadSource),
        RunEvent::SourceRead { candidates } => go(
            RunState { waiting: planned_chunks(candidates.deep_view(), s.tabs), ..s },
            Stage::EnteringDir,
            RunActionView::EnterDir,
        ),
        RunEvent::DirEntered | RunEvent::WorkerStarted => open_or_join(s),
        RunEvent::TabOpened => go(
            RunState { waiting: s.waiting.drop_first(), started: s.started + 1, ..s },
            Stage::StartingWorker,
            RunActionView::StartWorker {
                tab: s.started,
                worker: fresh(s.waiting.first(), s.timeout_secs),
            },
        ),
        RunEvent::Joined => go(s, Stage::Done, RunActionView::Summarise),
        RunEvent::LaunchFailed | RunEvent::TabFailed => abort(s, RunError::SessionFatal),
        RunEvent::DirFailed => abort(s, RunError::OutputDirectory),
        RunEvent::SourceUnavailable => abort(s, RunError::SourceUnavailable),
        RunEvent::JoinFailed => abort(s, RunError::WorkerFault),
    }
}

/// A run that has not started.
pub open spec fn initial(tabs: nat, width: u32, height: u32, timeout_secs: u64) -> RunState {
    RunState {
        stage: Stage::Start,
        waiting: Seq::empty(),
        started: 0,
        tabs,
        width,
        height,
        timeout_secs,
    }
}

/// An awaited event leads from a consistent run to a consistent run.
pub proof fn run_stays_consistent(s: RunState, event: RunEvent)
    requires
        consistent_run(s),
        run_awaited(s.stage, event),
    ensures
        consistent_run(run_next(s, event).0),
{
    if event is SourceRead {
        let urls = crate::urls::surviving(event->candidates.deep_view());
        crate::partition::chunks_fit_tabs(urls, s.tabs);
    }
}

/// The state that a run reaches from `s` through `events`. An event out of
/// turn changes nothing.
pub open spec fn run_after(s: RunState, events: Seq<RunEvent>) -> RunState
    decreases events.len(),
{
    if events.len() == 0 {
        s
    } else {
        let before = run_after(s, events.drop_last());
        if run_awaited(before.stage, events.last()) {
            run_next(before, events.last()).0
        } else {
            before
        }
    }
}

/// The actions that were issued along `events`, in order.
pub open spec fn issued(s: RunState, events: Seq<RunEvent>) -> Seq<RunActionView>
    decreases events.len(),
{
    if events.len() == 0 {
        Seq::empty()
    } else {
        let before = run_after(s, events.drop_last());
        let so_far = issued(s, events.drop_last());
        if run_awaited(before.stage, events.last()) {
            so_far.push(run_next(before, events.last()).1)
        } else {
            so_far
        }
    }
}

/// Where the browser binary is missing, the run looks for it, leaves
/// quietly, and does nothing else whatever it is told afterwards: no
/// directory is made, no source read, no tab opened.
pub proof fn missing_binary_ends_run(
    tabs: nat,
    width: u32,
    height: u32,
    timeout_secs: u64,
    events: Seq<RunEvent>,
)
    requires
        events.len() >= 2,
        events[0] is Begin,
        events[1] is BinaryMissing,
    ensures
        issued(initial(tabs, width, height, timeout_secs), events) == seq![
            RunActionView::CheckBinary,
            RunActionView::ExitQuietly,
        ],
        run_after(initial(tabs, width, height, timeout_secs), events).stage == Stage::Done,
    decreases events.len(),
{
    let start = initial(tabs, width, height, timeout_secs);
    let earlier = events.drop_last();
    if events.len() == 2 {
        assert(earlier.drop_last().len() == 0);
        assert(earlier.last() == events[0]);
        assert(run_after(start, earlier.drop_last()) == start);
        assert(issued(start, earlier.drop_last()) =~= Seq::<RunActionView>::empty());
        assert(run_after(start, earlier).stage == Stage::CheckingBinary);
        assert(issued(start, earlier) =~= seq![RunActionView::CheckBinary]);
        assert(issued(start, events) =~= seq![
            RunActionView::CheckBinary,
            RunActionView::ExitQuietly,
        ]);
    } else {
        assert(earlier[0] == events[0] && earlier[1] == events[1]);
        missing_binary_ends_run(tabs, width, height, timeout_secs, earlier);
    }
}

/// Every run that is driven from its start is consistent, whatever it is told.
pub proof fn run_always_consistent(
    tabs: nat,
    width: u32,
    height: u32,
    timeout_secs: u64,
    events: Seq<RunEvent>,
)
    requires
        tabs >= 1,
    ensures
        consistent_run(run_after(initial(tabs, width, height, timeout_secs), events)),
    decreases events.len(),
{
    if events.len() > 0 {
        run_always_consistent(tabs, width, height, timeout_secs, events.drop_last());
        let before = run_after(initial(tabs, width, height, timeout_secs), events.drop_last());
        if run_awaited(before.stage, events.last()) {
            run_stays_consistent(before, events.last());
        }
    }
}

/// A worker is started only on a tab that was just opened, on the first
/// chunk that waited, and the tabs are numbered in chunk order.
pub proof fn one_tab_per_chunk(s: RunState, event: RunEvent)
    requires
        consistent_run(s),
        run_awaited(s.stage, event),
    ensures
        run_next(s, event).1 is StartWorker <==> event is TabOpened,
        event is TabOpened ==> run_next(s, event).1 == (RunActionView::StartWorker {
            tab: s.started,
            worker: fresh(s.waiting[0], s.timeout_secs),
        }) && run_next(s, event).0.waiting == s.waiting.skip(1),
        run_next(s, event).1 is OpenTab ==> run_next(s, event).0.waiting.len() > 0
            && run_next(s, event).1->OpenTab_tab == s.started,
{
    assert(s.waiting.drop_first() =~= s.waiting.skip(1));
}

/// Whether the chunks are fixed at `stage`: the source was read.
pub open spec fn planned(stage: Stage) -> bool {
    stage == Stage::EnteringDir || stage == Stage::OpeningTab || stage == Stage::StartingWorker
        || stage == Stage::Joining || stage == Stage::Done
}

/// The workers that were handed out along `events`, each with the number
/// of its tab, in order.
pub open spec fn handed(s: RunState, events: Seq<RunEvent>) -> Seq<(int, WorkerState)>
    decreases events.len(),
{
    if events.len() == 0 {
        Seq::empty()
    } else {
        let before = run_after(s, events.drop_last());
        let so_far = handed(s, events.drop_last());
        if run_awaited(before.stage, events.last()) {
            match run_next(before, events.last()).1 {
                RunActionView::StartWorker { tab, worker } => so_far.push((tab, worker)),
                _ => so_far,
            }
        } else {
            so_far
        }
    }
}

/// Once the chunks are fixed, whatever the run is told, the workers handed
/// out are fresh workers for the waiting chunks, one per chunk, in chunk
/// order and with tabs numbered in that order; the chunks still waiting
/// are the rest; and when the run joins its workers no chunk is left.
pub proof fn workers_follow_chunks(s: RunState, events: Seq<RunEvent>)
    requires
        consistent_run(s),
        planned(s.stage),
    ensures
        ({
            let end = run_after(s, events);
            let n = end.started - s.started;
            &&& consistent_run(end)
            &&& planned(end.stage)
            &&& end.timeout_secs == s.timeout_secs
            &&& 0 <= n <= s.waiting.len()
            &&& end.waiting == s.waiting.skip(n)
            &&& handed(s, events) == Seq::new(
                n as nat,
                |i: int| (s.started + i, fresh(s.waiting[i], s.timeout_secs)),
            )
            &&& end.stage == Stage::Joining ==> n == s.waiting.len()
        }),
    decreases events.len(),
{
    let placed = |i: int| (s.started + i, fresh(s.waiting[i], s.timeout_secs));
    if events.len() == 0 {
        assert(s.waiting.skip(0) =~= s.waiting);
        assert(handed(s, events) =~= Seq::new(0, placed));
    } else {
        workers_follow_chunks(s, events.drop_last());
        let before = run_after(s, events.drop_last());
        let m = before.started - s.started;
        if run_awaited(before.stage, events.last()) {
            run_stays_consistent(before, events.last());
            let end = run_next(before, events.last()).0;
            if events.last() is TabOpened {
                assert(before.waiting.len() > 0);
                assert(before.waiting.first() == s.waiting[m]);
                assert(end.waiting =~= s.waiting.skip(m + 1));
                assert(handed(s, events) =~= Seq::new((m + 1) as nat, placed));
            }
        }
    }
}

/// One run, from the look for the browser to the summary.
pub struct Run {
    waiting: Vec<Vec<Target>>,
    course: Course,
    tabs: usize,
    width: u32,
    height: u32,
    timeout_secs: u64,
}

/// How far the run has come.
#[derive(Clone, Copy)]
struct Course {
    stage: Stage,
    started: usize,
}

impl View for Run {
    type V = RunState;

    closed spec fn view(&self) -> RunState {
        RunState {
            stage: self.course.stage,
            waiting: self.waiting.deep_view(),
            started: self.course.started as int,
            tabs: self.tabs as nat,
            width: self.width,
            height: self.height,
            timeout_secs: self.timeout_secs,
        }
    }
}

impl Run {
    #[verifier::type_invariant]
    spec fn sound(&self) -> bool {
        consistent_run(self@)
    }

    /// A run that has not started.
    pub fn new(tabs: usize, width: u32, height: u32, timeout_secs: u64) -> (run: Run)
        requires
            tabs >= 1,
        ensures
            run@ == initial(tabs as nat, width, height, timeout_secs),
            consistent_run(run@),
    {
        let run = Run {
            waiting: Vec::new(),
            course: Course { stage: Stage::Start, started: 0 },
            tabs,
            width,
            height,
            timeout_secs,
        };
        assert(run.waiting.deep_view() =~= Seq::<Seq<Seq<char>>>::empty());
        run
    }

    /// What the run is waiting for.
    pub fn stage(&self) -> (stage: Stage)
        ensures
            stage == self@.stage,
    {
        self.course.stage
    }

    /// Takes in what happened and says what to do next. An event that the
    /// run is not waiting for is refused with `None` and changes nothing.
    pub fn step(&mut self, event: RunEvent) -> (r: Option<RunAction>)
        ensures
            consistent_run(old(self)@),
            consistent_run(final(self)@),
            match r {
                Some(action) => run_awaited(old(self)@.stage, event) && final(self)@ == run_next(
                    old(self)@,
                    event,
                ).0 && action@ == run_next(old(self)@, event).1,
                None => !run_awaited(old(self)@.stage, event) && final(self)@ == old(self)@,
            },
    {
        proof {
            use_type_invariant(&*self);
            if run_awaited(self@.stage, event) {
                run_stays_consistent(self@, event);
            }
        }
        let now = self.course;
        match (now.stage, event) {
            (Stage::Start, RunEvent::Begin) => {
                self.course = Course { stage: Stage::CheckingBinary, ..now };
                Some(RunAction::CheckBinary)
            },
            (Stage::CheckingBinary, RunEvent::BinaryFound) => {
                self.course = Course { stage: Stage::Launching, ..now };
                Some(RunAction::Launch { width: self.width, height: self.height })
            },
            (Stage::CheckingBinary, RunEvent::BinaryMissing) => {
                self.course = Course { stage: Stage::Done, ..now };
                Some(RunAction::ExitQuietly)
            },
            (Stage::Launching, RunEvent::Launched) => {
                self.course = Course { stage: Stage::PreparingDir, ..now };
                Some(RunAction::EnsureDir)
            },
            (Stage::Launching, RunEvent::LaunchFailed) => Some(
                self.abort(RunError::SessionFatal),
            ),
            (Stage::PreparingDir, RunEvent::DirReady) => {
                self.course = Course { stage: Stage::ReadingSource, ..now };
                Some(RunAction::ReadSource)
            },
            (Stage::PreparingDir, RunEvent::DirFailed) => Some(
                self.abort(RunError::OutputDirectory),
            ),
            (Stage::ReadingSource, RunEvent::SourceRead { candidates }) => {
                self.course = Course { stage: Stage::EnteringDir, ..now };
                self.waiting = plan_chunks(&candidates, self.tabs);
                Some(RunAction::EnterDir)
            },
            (Stage::ReadingSource, RunEvent::SourceUnavailable) => Some(
                self.abort(RunError::SourceUnavailable),
            ),
            (Stage::EnteringDir, RunEvent::DirEntered) => Some(self.open_or_join()),
            (Stage::EnteringDir, RunEvent::DirFailed) => Some(
                self.abort(RunError::OutputDirectory),
            ),
            (Stage::OpeningTab, RunEvent::TabOpened) => {
                let ghost before = self.waiting.deep_view();
                assert(before.len() == self.waiting.len());
                self.course = Course { stage: Stage::StartingWorker, ..now };
                let mut rest: Vec<Vec<Target>> = Vec::new();
                assert(rest.deep_view() =~= Seq::<Seq<Seq<char>>>::empty());
                std::mem::swap(&mut self.waiting, &mut rest);
                let chunk = rest.remove(0);
                assert(rest.deep_view() =~= before.drop_first());
                self.waiting = rest;
                assert(chunk.deep_view() == before.first());
                self.course = Course { stage: Stage::StartingWorker, started: now.started + 1 };
                Some(
                    RunAction::StartWorker {
                        tab: now.started,
                        worker: Worker::new(chunk, self.timeout_secs),
                    },
                )
            },
            (Stage::OpeningTab, RunEvent::TabFailed) => Some(self.abort(RunError::SessionFatal)),
            (Stage::StartingWorker, RunEvent::WorkerStarted) => Some(self.open_or_join()),
            (Stage::Joining, RunEvent::Joined) => {
                self.course = Course { stage: Stage::Done, ..now };
                Some(RunAction::Summarise)
            },
            (Stage::Joining, RunEvent::JoinFailed) => Some(self.abort(RunError::WorkerFault)),
            _ => None,
        }
    }

    fn abort(&mut self, error: RunError) -> (action: RunAction)
        requires
            consistent_run(abort(old(self)@, error).0),
        ensures
            final(self)@ == abort(old(self)@, error).0,
            action@ == abort(old(self)@, error).1,
    {
        self.course = Course { stage: Stage::Done, started: self.course.started };
        RunAction::Abort { error }
    }

    fn open_or_join(&mut self) -> (action: RunAction)
        requires
            consistent_run(open_or_join(old(self)@).0),
        ensures
            final(self)@ == open_or_join(old(self)@).0,
            action@ == open_or_join(old(self)@).1,
    {
        let now = self.course;
        assert(self.waiting.deep_view().len() == self.waiting.len());
        if self.waiting.len() > 0 {
            self.course = Course { stage: Stage::OpeningTab, ..now };
            RunAction::OpenTab { tab: now.started }
        } else {
            self.course = Course { stage: Stage::Joining, ..now };
            RunAction::JoinAll
        }
    }
}

} // verus!
