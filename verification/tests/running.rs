use tabshot::run::{Run, RunAction, RunError, RunEvent, Stage};
use tabshot::settings::{default_outdir, Settings, DEFAULT_HEIGHT, DEFAULT_TABS, DEFAULT_WIDTH};
use tabshot::source::{resolve_candidates, select_source, SourceError, SourceMode};

fn strings(items: &[&str]) -> Vec<String> {
    items.iter().map(|s| s.to_string()).collect()
}

fn run_until_source(tabs: usize) -> Run {
    let mut run = Run::new(tabs, 1440, 900, 30);
    assert!(matches!(run.step(RunEvent::Begin), Some(RunAction::CheckBinary)));
    assert!(matches!(
        run.step(RunEvent::BinaryFound),
        Some(RunAction::Launch { width: 1440, height: 900 })
    ));
    assert!(matches!(run.step(RunEvent::Launched), Some(RunAction::EnsureDir)));
    assert!(matches!(run.step(RunEvent::DirReady), Some(RunAction::ReadSource)));
    run
}

#[test]
fn settings_defaults() {
    let s = Settings::resolve(None, None, None, None, 30, false);
    assert_eq!(s.outdir, "hxnshots");
    assert_eq!(s.tabs, 4);
    assert_eq!(s.width, 1440);
    assert_eq!(s.height, 900);
    assert_eq!(s.timeout_secs, 30);
    assert!(!s.silent);
    assert_eq!(default_outdir(), "hxnshots");
    assert_eq!((DEFAULT_TABS, DEFAULT_WIDTH, DEFAULT_HEIGHT), (4, 1440, 900));
}

#[test]
fn settings_keep_what_is_given() {
    let s = Settings::resolve(Some("out".to_string()), Some(2), Some(800), Some(600), 5, true);
    assert_eq!(
        s,
        Settings {
            outdir: "out".to_string(),
            tabs: 2,
            width: 800,
            height: 600,
            timeout_secs: 5,
            silent: true,
        }
    );
}

#[test]
fn source_modes() {
    assert_eq!(select_source(true, true, true), SourceMode::FromStream);
    assert_eq!(select_source(true, false, false), SourceMode::FromStream);
    assert_eq!(select_source(false, true, true), SourceMode::FromFile);
    assert_eq!(select_source(false, true, false), SourceMode::FromLine);
    assert_eq!(select_source(false, false, false), SourceMode::Absent);
    assert_eq!(select_source(false, false, true), SourceMode::Absent);
}

#[test]
fn literal_argument_is_the_only_candidate() {
    let got = resolve_candidates(SourceMode::FromLine, Some("https://example.com".to_string()), None);
    assert_eq!(got, Ok(strings(&["https://example.com"])));
    assert_eq!(resolve_candidates(SourceMode::FromLine, None, None), Ok(Vec::new()));
}

#[test]
fn lines_are_kept_in_order_with_duplicates() {
    let lines = strings(&["b", "a", "b", ""]);
    assert_eq!(
        resolve_candidates(SourceMode::FromFile, Some("list.txt".to_string()), Some(lines.clone())),
        Ok(lines.clone())
    );
    assert_eq!(resolve_candidates(SourceMode::FromStream, None, Some(lines.clone())), Ok(lines));
}

#[test]
fn unopened_source_is_unavailable() {
    assert_eq!(
        resolve_candidates(SourceMode::FromStream, None, None),
        Err(SourceError::SourceUnavailable)
    );
    assert_eq!(
        resolve_candidates(SourceMode::FromFile, Some("list.txt".to_string()), None),
        Err(SourceError::SourceUnavailable)
    );
    assert_eq!(
        resolve_candidates(SourceMode::Absent, Some("x".to_string()), Some(strings(&["y"]))),
        Ok(Vec::new())
    );
}

#[test]
fn missing_binary_exits_quietly() {
    let mut run = Run::new(4, 1440, 900, 30);
    assert_eq!(run.stage(), Stage::Start);
    assert!(matches!(run.step(RunEvent::Begin), Some(RunAction::CheckBinary)));
    assert!(matches!(run.step(RunEvent::BinaryMissing), Some(RunAction::ExitQuietly)));
    assert_eq!(run.stage(), Stage::Done);
    assert!(run.step(RunEvent::Launched).is_none());
    assert!(run.step(RunEvent::DirReady).is_none());
    assert!(run.step(RunEvent::SourceRead { candidates: strings(&["https://a.example/"]) })
        .is_none());
    assert!(run.step(RunEvent::Begin).is_none());
    assert_eq!(run.stage(), Stage::Done);
}

#[test]
fn full_run_opens_one_tab_per_chunk() {
    let mut run = run_until_source(2);
    let candidates = strings(&[
        "https://a.example/",
        "not a url",
        "https://b.example/",
        "https://c.example/",
    ]);
    assert!(matches!(run.step(RunEvent::SourceRead { candidates }), Some(RunAction::EnterDir)));
    assert!(matches!(run.step(RunEvent::DirEntered), Some(RunAction::OpenTab { tab: 0 })));
    match run.step(RunEvent::TabOpened) {
        Some(RunAction::StartWorker { tab, worker }) => {
            assert_eq!(tab, 0);
            assert_eq!(worker.len(), 2);
            assert_eq!(worker.target(0).unwrap().url(), "https://a.example/");
            assert_eq!(worker.target(1).unwrap().url(), "https://b.example/");
        }
        _ => panic!("a worker was expected"),
    }
    assert!(matches!(run.step(RunEvent::WorkerStarted), Some(RunAction::OpenTab { tab: 1 })));
    match run.step(RunEvent::TabOpened) {
        Some(RunAction::StartWorker { tab, worker }) => {
            assert_eq!(tab, 1);
            assert_eq!(worker.len(), 1);
            assert_eq!(worker.target(0).unwrap().url(), "https://c.example/");
        }
        _ => panic!("a worker was expected"),
    }
    assert!(matches!(run.step(RunEvent::WorkerStarted), Some(RunAction::JoinAll)));
    assert_eq!(run.stage(), Stage::Joining);
    assert!(matches!(run.step(RunEvent::Joined), Some(RunAction::Summarise)));
    assert_eq!(run.stage(), Stage::Done);
}

#[test]
fn run_without_urls_joins_at_once() {
    let mut run = run_until_source(4);
    assert!(matches!(
        run.step(RunEvent::SourceRead { candidates: strings(&["not a url"]) }),
        Some(RunAction::EnterDir)
    ));
    assert!(matches!(run.step(RunEvent::DirEntered), Some(RunAction::JoinAll)));
    assert!(matches!(run.step(RunEvent::Joined), Some(RunAction::Summarise)));
}

#[test]
fn launch_failure_is_fatal() {
    let mut run = Run::new(4, 1440, 900, 30);
    run.step(RunEvent::Begin);
    run.step(RunEvent::BinaryFound);
    assert!(matches!(
        run.step(RunEvent::LaunchFailed),
        Some(RunAction::Abort { error: RunError::SessionFatal })
    ));
    assert_eq!(run.stage(), Stage::Done);
}

#[test]
fn tab_failure_is_fatal() {
    let mut run = run_until_source(4);
    run.step(RunEvent::SourceRead { candidates: strings(&["https://a.example/"]) });
    run.step(RunEvent::DirEntered);
    assert!(matches!(
        run.step(RunEvent::TabFailed),
        Some(RunAction::Abort { error: RunError::SessionFatal })
    ));
    assert!(run.step(RunEvent::TabOpened).is_none());
}

#[test]
fn source_and_directory_and_join_failures_abort() {
    let mut run = run_until_source(4);
    assert!(matches!(
        run.step(RunEvent::SourceUnavailable),
        Some(RunAction::Abort { error: RunError::SourceUnavailable })
    ));

    let mut run = Run::new(4, 1440, 900, 30);
    run.step(RunEvent::Begin);
    run.step(RunEvent::BinaryFound);
    run.step(RunEvent::Launched);
    assert!(matches!(
        run.step(RunEvent::DirFailed),
        Some(RunAction::Abort { error: RunError::OutputDirectory })
    ));

    let mut run = run_until_source(4);
    run.step(RunEvent::SourceRead { candidates: Vec::new() });
    assert!(matches!(
        run.step(RunEvent::DirFailed),
        Some(RunAction::Abort { error: RunError::OutputDirectory })
    ));

    let mut run = run_until_source(4);
    run.step(RunEvent::SourceRead { candidates: Vec::new() });
    run.step(RunEvent::DirEntered);
    assert!(matches!(
        run.step(RunEvent::JoinFailed),
        Some(RunAction::Abort { error: RunError::WorkerFault })
    ));
}

#[test]
fn run_refuses_events_out_of_turn() {
    let mut run = Run::new(4, 1440, 900, 30);
    assert!(run.step(RunEvent::BinaryFound).is_none());
    assert!(run.step(RunEvent::TabOpened).is_none());
    assert_eq!(run.stage(), Stage::Start);
    run.step(RunEvent::Begin);
    assert!(run.step(RunEvent::Begin).is_none());
    assert_eq!(run.stage(), Stage::CheckingBinary);
}
