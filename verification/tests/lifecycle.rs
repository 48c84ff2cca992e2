use aria2_downloader::channel::WaitStep;
use aria2_downloader::downloader::{Aria2Downloader, ChildState, Launch, StartStep};
use aria2_downloader::error::Error;
use aria2_downloader::progress::{DownloadProgress, DownloadStatus};
use std::path::PathBuf;
use std::time::Duration;

/// Stands for a running process.
type Process = u32;

fn downloader() -> Aria2Downloader<Process> {
    Aria2Downloader::new("aria2c".into(), Duration::from_secs(60))
}

fn launch(d: &mut Aria2Downloader<Process>, child: ChildState) -> Launch {
    match d.ensure_running(child, 0xabc) {
        StartStep::Launch(launch) => launch,
        StartStep::Running => panic!("a launch was expected"),
    }
}

fn running() -> Aria2Downloader<Process> {
    let mut d = downloader();
    let launch = launch(&mut d, ChildState::Unknown);
    d.started(launch.generation, 41);
    d
}

/// Whether a task that waits for the signal is woken at once.
fn has_permit(notify: &tokio::sync::Notify) -> bool {
    let runtime = tokio::runtime::Builder::new_current_thread()
        .enable_time()
        .build()
        .unwrap();
    runtime.block_on(async {
        tokio::time::timeout(Duration::from_millis(20), notify.notified())
            .await
            .is_ok()
    })
}

#[test]
fn defaults_are_as_documented() {
    let d: Aria2Downloader<Process> = Aria2Downloader::<Process>::builder("aria2c".into()).build();
    assert_eq!(d.settings().aria2_path, PathBuf::from("aria2c"));
    assert_eq!(d.settings().idle_timeout, Duration::from_secs(300));
    assert_eq!(d.settings().rpc_port, 6800);
    assert_eq!(d.settings().poll_interval, Duration::from_secs(1));
    assert!(d.settings().extra_args.is_empty());
}

#[test]
fn every_setting_can_be_changed() {
    let d: Aria2Downloader<Process> = Aria2Downloader::<Process>::builder("/opt/aria2c".into())
        .idle_timeout(Duration::from_secs(120))
        .rpc_port(16800)
        .poll_interval(Duration::from_millis(500))
        .extra_args(vec!["--check-certificate=false".into()])
        .build();
    assert_eq!(d.settings().aria2_path, PathBuf::from("/opt/aria2c"));
    assert_eq!(d.settings().idle_timeout, Duration::from_secs(120));
    assert_eq!(d.settings().rpc_port, 16800);
    assert_eq!(d.settings().poll_interval, Duration::from_millis(500));
    assert_eq!(
        d.settings().extra_args,
        vec!["--check-certificate=false".to_string()]
    );
}

#[test]
fn the_shorthand_sets_the_idle_timeout_only() {
    let d = downloader();
    assert_eq!(d.settings().idle_timeout, Duration::from_secs(60));
    assert_eq!(d.settings().rpc_port, 6800);
    assert_eq!(d.settings().poll_interval, Duration::from_secs(1));
}

#[test]
fn no_process_is_started_at_construction() {
    let d = downloader();
    assert!(!d.is_running(ChildState::Alive));
    assert!(matches!(d.client(), Err(Error::NotRunning)));
    assert!(d.is_idle());
    assert!(d.is_generation_active(0));
    assert!(!d.has_ended(0));
    assert!(d.has_ended(1));
}

#[test]
fn the_first_submission_launches_a_process() {
    let mut d = downloader();
    let launch = launch(&mut d, ChildState::Alive);
    assert_eq!(launch.generation, 1);
    assert_eq!(launch.args[1], "--rpc-listen-port=6800");
    assert_eq!(launch.args[2], "--rpc-secret=abc");
    assert_eq!(launch.args.len(), 5);
    assert_eq!(launch.connection.url, "ws://127.0.0.1:6800/jsonrpc");
    assert_eq!(launch.connection.token.as_deref(), Some("token:abc"));
    assert!(!d.is_running(ChildState::Alive));

    d.started(launch.generation, 41);
    assert!(d.is_running(ChildState::Alive));
    assert_eq!(*d.client().unwrap(), 41);
    assert!(d.is_generation_active(1));
    assert!(!d.has_ended(1));
}

#[test]
fn a_living_process_is_kept() {
    let mut d = running();
    assert!(matches!(
        d.ensure_running(ChildState::Alive, 7),
        StartStep::Running
    ));
    assert_eq!(*d.client().unwrap(), 41);
}

#[test]
fn a_process_that_has_died_does_not_count_as_running() {
    let d = running();
    assert!(d.is_running(ChildState::Alive));
    assert!(!d.is_running(ChildState::Exited));
    assert!(!d.is_running(ChildState::Unknown));
}

#[test]
fn an_unexpected_exit_fails_the_downloads_and_restarts() {
    let mut d = running();
    let handle = d.accept("g1".into());
    let next = launch(&mut d, ChildState::Exited);
    assert_eq!(next.generation, 2);
    assert!(d.is_idle());
    assert!(d.has_ended(1));
    assert!(matches!(d.client(), Err(Error::NotRunning)));
    let last = handle.progress();
    assert_eq!(last.gid, "g1");
    assert_eq!(last.status, DownloadStatus::Error);
    assert_eq!(
        last.error_message.as_deref(),
        Some("aria2c process exited unexpectedly")
    );
    assert!(has_permit(d.activity()));

    d.started(next.generation, 42);
    assert!(d.has_ended(1));
    assert!(!d.has_ended(2));
}

#[test]
fn a_process_that_cannot_be_inspected_is_replaced() {
    let mut d = running();
    let handle = d.accept("g1".into());
    let next = launch(&mut d, ChildState::Unknown);
    assert_eq!(next.generation, 2);
    assert_eq!(
        handle.progress().error_message.as_deref(),
        Some("failed to inspect aria2c process state")
    );
}

#[test]
fn a_failed_start_leaves_nothing_behind_but_its_generation() {
    let mut d = downloader();
    assert_eq!(launch(&mut d, ChildState::Unknown).generation, 1);
    assert!(matches!(d.client(), Err(Error::NotRunning)));
    assert_eq!(launch(&mut d, ChildState::Unknown).generation, 2);
}

#[test]
fn submitting_needs_a_process_and_counts_as_activity() {
    let mut d = downloader();
    assert!(matches!(d.submit(), Err(Error::NotRunning)));
    assert!(has_permit(d.activity()));
    assert!(!has_permit(d.activity()));
    let mut d = running();
    assert_eq!(*d.submit().unwrap(), 41);
    assert!(has_permit(d.activity()));
}

#[test]
fn an_accepted_download_is_pending() {
    let mut d = running();
    let handle = d.accept("g1".into());
    assert_eq!(handle.gid(), "g1");
    assert_eq!(handle.progress().gid, "g1");
    assert_eq!(handle.progress().status, DownloadStatus::Pending);
    assert!(!d.is_idle());
    assert_eq!(d.gids(), vec!["g1".to_string()]);
}

#[test]
fn shutdown_fails_what_is_in_flight() {
    let mut d = running();
    let mut first = d.accept("g1".into());
    let second = d.accept("g2".into());
    assert_eq!(d.shutdown(), Some(41));
    assert!(d.is_idle());
    assert!(d.has_ended(1));
    assert!(!d.is_running(ChildState::Alive));
    match first.wait() {
        WaitStep::Done(Err(Error::DownloadFailed { gid, message })) => {
            assert_eq!(gid, "g1");
            assert_eq!(message, "aria2c process stopped");
        }
        _ => panic!("the wait should have failed"),
    }
    assert_eq!(second.progress().status, DownloadStatus::Error);
    assert_eq!(d.shutdown(), None);
}

#[test]
fn shutdown_fails_downloads_that_lost_their_process() {
    let mut d = running();
    assert_eq!(d.stop_process(), Some(41));
    let late = d.accept("g9".into());
    assert_eq!(d.shutdown(), None);
    assert!(d.is_idle());
    assert_eq!(
        late.progress().error_message.as_deref(),
        Some("aria2c process stopped")
    );
}

#[test]
fn a_stop_without_a_process_changes_nothing() {
    let mut d = downloader();
    let handle = d.accept("g1".into());
    assert_eq!(d.stop_process(), None);
    assert!(!d.is_idle());
    assert_eq!(handle.progress().status, DownloadStatus::Pending);
    assert!(!has_permit(d.activity()));
}

#[test]
fn closing_ends_the_background_activities_and_nothing_else() {
    let mut d = running();
    let runtime = tokio::runtime::Builder::new_current_thread()
        .enable_time()
        .build()
        .unwrap();
    let signal = d.shutdown_signal().clone();
    let woken = runtime.block_on(async {
        let waiting = signal.notified();
        d.close();
        tokio::time::timeout(Duration::from_secs(5), waiting)
            .await
            .is_ok()
    });
    assert!(woken);
    assert!(!has_permit(d.shutdown_signal()));
    assert!(d.has_ended(1));
    assert!(d.is_generation_active(1));
    assert_eq!(*d.client().unwrap(), 41);
}

#[test]
fn a_launch_clears_an_earlier_shutdown() {
    let mut d = running();
    assert_eq!(d.shutdown(), Some(41));
    let next = launch(&mut d, ChildState::Unknown);
    d.started(next.generation, 42);
    assert!(!d.has_ended(2));
    assert!(d.is_running(ChildState::Alive));
}

#[test]
fn failing_nothing_wakes_nobody() {
    let mut d = running();
    d.fail_all_tasks("gone");
    assert!(!has_permit(d.activity()));
    let handle = d.accept("g1".into());
    d.fail_all_tasks("gone");
    assert!(has_permit(d.activity()));
    assert_eq!(handle.progress().error_message.as_deref(), Some("gone"));
    assert!(d.is_idle());
}

#[test]
fn a_report_reaches_the_download_that_it_is_for() {
    let mut d = running();
    let first = d.accept("g1".into());
    let second = d.accept("g2".into());
    let mut report = DownloadProgress::pending("g2".into());
    report.completed_length = 9;
    d.publish(&"g2".to_string(), report);
    assert_eq!(first.progress().completed_length, 0);
    assert_eq!(second.progress().completed_length, 9);
    d.publish(
        &"g3".to_string(),
        DownloadProgress::failed("g3".into(), "gone".into()),
    );
    assert_eq!(first.progress().status, DownloadStatus::Pending);
    assert_eq!(second.progress().status, DownloadStatus::Pending);
}

#[test]
fn every_report_is_about_the_download_of_its_handle() {
    let mut d = running();
    let mut first = d.accept("g1".into());
    let second = d.accept("g2".into());
    assert_eq!(first.progress().gid, "g1");
    assert_eq!(second.progress().gid, "g2");
    d.publish(
        &"g1".to_string(),
        DownloadProgress::contact_lost("g1".into(), "reset"),
    );
    assert_eq!(first.progress().gid, "g1");
    match first.changed() {
        WaitStep::Done(Ok(p)) => assert_eq!(p.gid, "g1"),
        _ => panic!("there should be a report"),
    }
    assert_eq!(first.gid(), "g1");
    d.fail_all_tasks("gone");
    assert_eq!(first.progress().gid, "g1");
    assert_eq!(second.progress().gid, second.gid());
    assert_eq!(second.progress().error_message.as_deref(), Some("gone"));
}

#[test]
fn a_failure_is_delivered_once_and_nothing_follows_it() {
    let mut d = running();
    let mut handle = d.accept("g1".into());
    assert!(matches!(handle.changed(), WaitStep::Await));
    d.fail_all_tasks("gone");
    match handle.changed() {
        WaitStep::Done(Ok(p)) => {
            assert_eq!(p.gid, "g1");
            assert_eq!(p.status, DownloadStatus::Error);
            assert_eq!(p.error_message.as_deref(), Some("gone"));
        }
        _ => panic!("there should be a report"),
    }
    assert!(matches!(
        handle.changed(),
        WaitStep::Done(Err(Error::ChannelClosed))
    ));
    assert_eq!(handle.progress().error_message.as_deref(), Some("gone"));
    match handle.wait() {
        WaitStep::Done(Err(Error::DownloadFailed { gid, message })) => {
            assert_eq!(gid, "g1");
            assert_eq!(message, "gone");
        }
        _ => panic!("the wait should have failed"),
    }
}

#[test]
fn a_generation_that_was_stopped_never_returns() {
    let mut d = downloader();
    let first = launch(&mut d, ChildState::Unknown).generation;
    assert_eq!(first, 1);
    d.started(first, 7);
    assert!(!d.has_ended(first));
    assert_eq!(d.stop_process(), Some(7));
    assert!(d.has_ended(first));
    let failed = launch(&mut d, ChildState::Unknown).generation;
    assert!(d.has_ended(first));
    assert!(d.has_ended(failed));
    let second = launch(&mut d, ChildState::Unknown).generation;
    d.started(second, 8);
    assert!(first < failed && failed < second);
    assert!(d.is_generation_active(second));
    assert!(d.has_ended(first));
    assert!(d.has_ended(failed));
}

#[test]
fn retired_downloads_are_no_longer_tracked() {
    let mut d = running();
    let mut handles = Vec::new();
    for gid in ["g1", "g2", "g3", "g4"] {
        handles.push(d.accept(gid.into()));
    }
    d.retire(&vec!["g1".into(), "g3".into(), "g7".into(), "g1".into()]);
    let mut left = d.gids();
    left.sort();
    assert_eq!(left, vec!["g2".to_string(), "g4".to_string()]);
    assert!(has_permit(d.activity()));
    assert!(handles[0].receiver().has_changed().is_err());
    assert!(handles[1].receiver().has_changed().is_ok());
    d.retire(&Vec::new());
    assert!(!has_permit(d.activity()));
}

#[test]
fn a_gid_that_comes_back_gets_a_new_channel() {
    let mut d = running();
    let mut old = d.accept("g1".into());
    let new = d.accept("g1".into());
    assert_eq!(d.gids().len(), 1);
    assert!(old.receiver().has_changed().is_err());
    d.publish(
        &"g1".to_string(),
        DownloadProgress::failed("g1".into(), "gone".into()),
    );
    assert_eq!(new.progress().status, DownloadStatus::Error);
    assert_eq!(old.progress().status, DownloadStatus::Pending);
}

#[test]
fn the_process_can_be_looked_at() {
    let mut d = running();
    if let Some(process) = d.process_mut() {
        *process += 1;
    }
    assert_eq!(*d.client().unwrap(), 42);
    d.stop_process();
    assert!(d.process_mut().is_none());
}
