use aria2_downloader::aria2::{Status, TaskStatus};
use aria2_downloader::channel::WaitStep;
use aria2_downloader::downloader::{Aria2Downloader, ChildState, StartStep};
use aria2_downloader::idle::{IdleEvent, IdleStep, IdleWatcher};
use aria2_downloader::poller::{PollStep, Poller};
use aria2_downloader::progress::DownloadStatus;
use std::time::Duration;

/// Stands for a running process.
type Process = u32;

fn running() -> Aria2Downloader<Process> {
    let mut d: Aria2Downloader<Process> =
        Aria2Downloader::new("aria2c".into(), Duration::from_secs(60));
    start(&mut d, 41);
    d
}

fn start(d: &mut Aria2Downloader<Process>, process: Process) -> u64 {
    match d.ensure_running(ChildState::Exited, 1) {
        StartStep::Launch(launch) => {
            d.started(launch.generation, process);
            launch.generation
        }
        StartStep::Running => panic!("a launch was expected"),
    }
}

fn report(status: TaskStatus, done: u64) -> Status {
    Status {
        status: Some(status),
        total_length: Some(100),
        completed_length: Some(done),
        download_speed: Some(5),
        upload_speed: None,
        error_message: None,
    }
}

fn queried(step: PollStep) -> String {
    match step {
        PollStep::Query(gid) => gid,
        _ => panic!("a query was expected"),
    }
}

#[test]
fn a_tick_without_downloads_waits() {
    let d = running();
    let mut poller = Poller::new(1);
    assert!(matches!(poller.tick(&d), PollStep::Wait));
}

#[test]
fn a_round_queries_every_download_once() {
    let mut d = running();
    let first = d.accept("g1".into());
    let second = d.accept("g2".into());
    let mut poller = Poller::new(1);
    assert!(matches!(poller.tick(&d), PollStep::Connect));

    let a = queried(poller.connect(&d));
    let b = queried(poller.reply(&mut d, Ok(report(TaskStatus::Active, 10))));
    let mut both = vec![a.clone(), b];
    both.sort();
    assert_eq!(both, vec!["g1".to_string(), "g2".to_string()]);
    assert!(matches!(
        poller.reply(&mut d, Ok(report(TaskStatus::Active, 20))),
        PollStep::Wait
    ));

    let (early, late) = if a == "g1" {
        (first.progress(), second.progress())
    } else {
        (second.progress(), first.progress())
    };
    assert_eq!(early.completed_length, 10);
    assert_eq!(early.status, DownloadStatus::Active);
    assert_eq!(late.completed_length, 20);
    assert_eq!(d.gids().len(), 2);
}

#[test]
fn a_download_that_has_ended_leaves_with_the_round() {
    let mut d = running();
    let mut handles = vec![d.accept("g1".into()), d.accept("g2".into())];
    let mut poller = Poller::new(1);
    poller.tick(&d);
    let ended = queried(poller.connect(&d));
    poller.reply(&mut d, Ok(report(TaskStatus::Complete, 100)));
    assert_eq!(d.gids().len(), 2);
    poller.reply(&mut d, Ok(report(TaskStatus::Active, 1)));
    assert_eq!(d.gids().len(), 1);
    assert!(!d.gids().contains(&ended));
    for handle in &mut handles {
        if handle.gid() == ended {
            assert_eq!(handle.progress().status, DownloadStatus::Complete);
            assert!(handle.receiver().has_changed().is_err());
        } else {
            assert_eq!(handle.progress().status, DownloadStatus::Active);
            assert!(handle.receiver().has_changed().is_ok());
        }
    }
}

#[test]
fn a_removed_download_leaves_as_removed() {
    let mut d = running();
    let mut handle = d.accept("g1".into());
    assert!(matches!(handle.wait(), WaitStep::Await));
    let mut poller = Poller::new(1);
    poller.tick(&d);
    poller.connect(&d);
    assert!(matches!(
        poller.reply(&mut d, Ok(report(TaskStatus::Removed, 3))),
        PollStep::Wait
    ));
    assert!(d.is_idle());
    assert_eq!(handle.progress().status, DownloadStatus::Removed);
    match handle.wait() {
        WaitStep::Done(Ok(p)) => {
            assert_eq!(p.gid, "g1");
            assert_eq!(p.status, DownloadStatus::Removed);
            assert_eq!(p.completed_length, 3);
        }
        _ => panic!("the wait should be over"),
    }
}

#[test]
fn a_failed_query_fails_the_download() {
    let mut d = running();
    let handle = d.accept("g1".into());
    let mut poller = Poller::new(1);
    poller.tick(&d);
    poller.connect(&d);
    poller.reply(&mut d, Err("Request send error".into()));
    assert!(d.is_idle());
    assert_eq!(handle.progress().status, DownloadStatus::Error);
    assert_eq!(
        handle.progress().error_message.as_deref(),
        Some("lost contact with aria2c: Request send error")
    );
}

#[test]
fn a_reply_for_a_download_that_is_gone_is_dropped() {
    let mut d = running();
    let handle = d.accept("g1".into());
    let mut poller = Poller::new(1);
    poller.tick(&d);
    poller.connect(&d);
    d.fail_all_tasks("gone");
    poller.reply(&mut d, Ok(report(TaskStatus::Complete, 100)));
    assert_eq!(handle.progress().error_message.as_deref(), Some("gone"));
}

#[test]
fn a_reply_that_nobody_asked_for_is_ignored() {
    let mut d = running();
    let handle = d.accept("g1".into());
    let mut poller = Poller::new(1);
    assert!(matches!(
        poller.reply(&mut d, Ok(report(TaskStatus::Complete, 100))),
        PollStep::Wait
    ));
    assert_eq!(handle.progress().status, DownloadStatus::Pending);
}

#[test]
fn a_round_needs_a_process() {
    let mut d = running();
    d.accept("g1".into());
    let mut poller = Poller::new(1);
    assert!(matches!(poller.tick(&d), PollStep::Connect));
    d.stop_process();
    assert!(matches!(poller.connect(&d), PollStep::Exit));
}

#[test]
fn a_poller_ends_with_its_process() {
    let mut d = running();
    let mut poller = Poller::new(1);
    assert!(matches!(poller.tick(&d), PollStep::Wait));
    assert_eq!(start(&mut d, 42), 2);
    d.accept("g1".into());
    assert!(matches!(poller.tick(&d), PollStep::Exit));
    let mut next = Poller::new(2);
    assert!(matches!(next.tick(&d), PollStep::Connect));
    d.close();
    assert!(matches!(next.tick(&d), PollStep::Exit));
}

#[test]
fn an_idle_process_is_stopped_when_the_countdown_runs_out() {
    let mut d = running();
    let watcher = IdleWatcher::new(1);
    match watcher.step(&mut d, IdleEvent::Begin) {
        IdleStep::Countdown(timeout) => assert_eq!(timeout, Duration::from_secs(60)),
        _ => panic!("a countdown was expected"),
    }
    match watcher.step(&mut d, IdleEvent::TimedOut) {
        IdleStep::Stopped(process) => assert_eq!(process, Some(41)),
        _ => panic!("a stop was expected"),
    }
    assert!(!d.is_running(ChildState::Alive));
    assert!(d.has_ended(1));
}

#[test]
fn a_process_with_downloads_is_never_idle() {
    let mut d = running();
    let handle = d.accept("g1".into());
    let watcher = IdleWatcher::new(1);
    for event in [IdleEvent::Begin, IdleEvent::Activity, IdleEvent::TimedOut] {
        assert!(matches!(
            watcher.step(&mut d, event),
            IdleStep::AwaitActivity
        ));
    }
    assert!(d.is_running(ChildState::Alive));
    assert_eq!(handle.progress().status, DownloadStatus::Pending);
}

#[test]
fn activity_restarts_the_countdown() {
    let mut d = running();
    let watcher = IdleWatcher::new(1);
    assert!(matches!(
        watcher.step(&mut d, IdleEvent::Activity),
        IdleStep::Countdown(_)
    ));
}

#[test]
fn a_watcher_ends_on_shutdown_and_with_its_process() {
    let mut d = running();
    let watcher = IdleWatcher::new(1);
    assert!(matches!(
        watcher.step(&mut d, IdleEvent::Shutdown),
        IdleStep::Exit
    ));
    assert!(d.is_running(ChildState::Alive));
    assert_eq!(start(&mut d, 42), 2);
    for event in [IdleEvent::Begin, IdleEvent::Activity, IdleEvent::TimedOut] {
        assert!(matches!(watcher.step(&mut d, event), IdleStep::Exit));
    }
    assert!(d.is_running(ChildState::Alive));
}
