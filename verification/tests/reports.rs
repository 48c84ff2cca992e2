use aria2_downloader::aria2::{status_keys, status_to_progress, Status, StatusKey, TaskStatus};
use aria2_downloader::channel::{changed_step, open_channel, wait_step, WaitStep};
use aria2_downloader::error::{rpc_result, spawn_result, Error};
use aria2_downloader::progress::{finish_result, DownloadProgress, DownloadStatus};

fn percent(progress: &DownloadProgress) -> f64 {
    match progress.transferred() {
        None => 0.0,
        Some((done, total)) => done as f64 / total as f64 * 100.0,
    }
}

fn unreported() -> Status {
    Status {
        status: None,
        total_length: None,
        completed_length: None,
        download_speed: None,
        upload_speed: None,
        error_message: None,
    }
}

fn with_status(status: DownloadStatus) -> DownloadProgress {
    DownloadProgress {
        status,
        ..Default::default()
    }
}

#[test]
fn status_to_progress_maps_expected_fields() {
    let status = Status {
        status: Some(TaskStatus::Active),
        total_length: Some(100),
        completed_length: Some(25),
        download_speed: Some(4),
        upload_speed: Some(2),
        error_message: None,
    };

    let progress = status_to_progress("gid-1", &status);
    assert_eq!(progress.gid, "gid-1");
    assert_eq!(progress.status, DownloadStatus::Active);
    assert_eq!(progress.total_length, 100);
    assert_eq!(progress.completed_length, 25);
    assert_eq!(progress.download_speed, 4);
    assert_eq!(progress.upload_speed, 2);
    assert_eq!(percent(&progress), 25.0);
}

#[test]
fn finish_result_returns_download_error() {
    let error = finish_result(DownloadProgress {
        gid: "gid-2".into(),
        status: DownloadStatus::Error,
        error_message: Some("boom".into()),
        ..Default::default()
    })
    .unwrap_err();

    match error {
        Error::DownloadFailed { gid, message } => {
            assert_eq!(gid, "gid-2");
            assert_eq!(message, "boom");
        }
        other => panic!("unexpected error: {other:?}"),
    }
}

#[test]
fn finish_result_without_message_has_an_empty_one() {
    match finish_result(with_status(DownloadStatus::Error)) {
        Err(Error::DownloadFailed { message, .. }) => assert_eq!(message, ""),
        other => panic!("unexpected result: {other:?}"),
    }
}

#[test]
fn finish_result_passes_every_other_report_on() {
    for status in [
        DownloadStatus::Pending,
        DownloadStatus::Active,
        DownloadStatus::Waiting,
        DownloadStatus::Paused,
        DownloadStatus::Complete,
        DownloadStatus::Removed,
    ] {
        assert_eq!(finish_result(with_status(status)).unwrap().status, status);
    }
}

#[test]
fn every_task_status_has_its_download_status() {
    let pairs = [
        (Some(TaskStatus::Active), DownloadStatus::Active),
        (Some(TaskStatus::Waiting), DownloadStatus::Waiting),
        (Some(TaskStatus::Paused), DownloadStatus::Paused),
        (Some(TaskStatus::Complete), DownloadStatus::Complete),
        (Some(TaskStatus::Error), DownloadStatus::Error),
        (Some(TaskStatus::Removed), DownloadStatus::Removed),
        (None, DownloadStatus::Pending),
    ];
    for (status, expected) in pairs {
        let st = Status {
            status,
            ..unreported()
        };
        assert_eq!(status_to_progress("g", &st).status, expected);
    }
}

#[test]
fn missing_fields_count_as_nothing() {
    let progress = status_to_progress("g", &unreported());
    assert_eq!(progress.total_length, 0);
    assert_eq!(progress.completed_length, 0);
    assert_eq!(progress.download_speed, 0);
    assert_eq!(progress.upload_speed, 0);
    assert_eq!(progress.error_message, None);
}

#[test]
fn error_message_is_carried_over() {
    let st = Status {
        status: Some(TaskStatus::Error),
        error_message: Some("404 Not Found".into()),
        ..unreported()
    };
    let progress = status_to_progress("g", &st);
    assert_eq!(progress.error_message.as_deref(), Some("404 Not Found"));
}

#[test]
fn only_three_states_are_final() {
    let finals = [
        (DownloadStatus::Pending, false),
        (DownloadStatus::Active, false),
        (DownloadStatus::Waiting, false),
        (DownloadStatus::Paused, false),
        (DownloadStatus::Complete, true),
        (DownloadStatus::Error, true),
        (DownloadStatus::Removed, true),
    ];
    for (status, expected) in finals {
        assert_eq!(with_status(status).is_finished(), expected);
    }
}

#[test]
fn percent_is_zero_while_the_total_is_unknown() {
    let progress = DownloadProgress {
        completed_length: 7,
        ..Default::default()
    };
    assert_eq!(progress.transferred(), None);
    assert_eq!(percent(&progress), 0.0);
}

#[test]
fn percent_never_exceeds_a_hundred() {
    let progress = DownloadProgress {
        total_length: 10,
        completed_length: 25,
        ..Default::default()
    };
    assert_eq!(progress.transferred(), Some((10, 10)));
    assert_eq!(percent(&progress), 100.0);
}

#[test]
fn percent_of_a_complete_download_is_a_hundred() {
    let progress = DownloadProgress {
        total_length: u64::MAX,
        completed_length: u64::MAX,
        ..Default::default()
    };
    assert_eq!(percent(&progress), 100.0);
}

#[test]
fn default_progress_says_nothing() {
    let progress = DownloadProgress::default();
    assert_eq!(progress.gid, "");
    assert_eq!(progress.status, DownloadStatus::Pending);
    assert_eq!(progress.total_length, 0);
    assert_eq!(progress.error_message, None);
}

#[test]
fn lost_contact_names_the_reason() {
    let progress = DownloadProgress::contact_lost("g".into(), "Request send error");
    assert_eq!(progress.gid, "g");
    assert_eq!(progress.status, DownloadStatus::Error);
    assert_eq!(
        progress.error_message.as_deref(),
        Some("lost contact with aria2c: Request send error")
    );
}

#[test]
fn a_query_asks_for_what_is_read() {
    assert_eq!(
        status_keys(),
        vec![
            StatusKey::Status,
            StatusKey::TotalLength,
            StatusKey::CompletedLength,
            StatusKey::DownloadSpeed,
            StatusKey::UploadSpeed,
            StatusKey::ErrorMessage,
        ]
    );
}

#[test]
fn a_wait_goes_on_until_a_final_report() {
    assert!(matches!(
        wait_step(with_status(DownloadStatus::Active), false),
        WaitStep::Await
    ));
    match wait_step(with_status(DownloadStatus::Complete), false) {
        WaitStep::Done(Ok(p)) => assert_eq!(p.status, DownloadStatus::Complete),
        _ => panic!("the wait should be over"),
    }
}

#[test]
fn a_cancelled_download_resolves_as_removed() {
    let st = Status {
        status: Some(TaskStatus::Removed),
        ..unreported()
    };
    match wait_step(status_to_progress("g", &st), false) {
        WaitStep::Done(Ok(p)) => assert_eq!(p.status, DownloadStatus::Removed),
        _ => panic!("the wait should be over"),
    }
}

#[test]
fn a_wait_on_a_closed_channel_succeeds_only_for_a_download_that_has_ended() {
    for status in [
        DownloadStatus::Pending,
        DownloadStatus::Active,
        DownloadStatus::Waiting,
        DownloadStatus::Paused,
    ] {
        assert!(matches!(
            wait_step(with_status(status), true),
            WaitStep::Done(Err(Error::ChannelClosed))
        ));
    }
    match wait_step(with_status(DownloadStatus::Complete), true) {
        WaitStep::Done(Ok(p)) => assert_eq!(p.status, DownloadStatus::Complete),
        _ => panic!("the wait should be over"),
    }
    match wait_step(with_status(DownloadStatus::Error), true) {
        WaitStep::Done(Err(Error::DownloadFailed { .. })) => {}
        _ => panic!("the wait should have failed"),
    }
}

#[test]
fn a_channel_starts_pending_and_shows_what_is_sent() {
    let (mut sender, mut handle) = open_channel("g1".into());
    assert_eq!(sender.gid(), "g1");
    assert_eq!(handle.gid(), "g1");
    assert_eq!(handle.progress().gid, "g1");
    assert_eq!(handle.progress().status, DownloadStatus::Pending);
    assert!(matches!(handle.wait(), WaitStep::Await));

    let mut next = DownloadProgress::pending("g1".into());
    next.status = DownloadStatus::Active;
    next.completed_length = 12;
    sender.send(next);
    assert!(handle.receiver().has_changed().unwrap());
    assert_eq!(handle.progress().completed_length, 12);
    match handle.changed() {
        WaitStep::Done(Ok(seen)) => {
            assert_eq!(seen.status, DownloadStatus::Active);
            assert_eq!(seen.completed_length, 12);
        }
        _ => panic!("there should be a report"),
    }
    assert!(matches!(handle.changed(), WaitStep::Await));
    assert!(!handle.receiver().has_changed().unwrap());

    sender.send(DownloadProgress::failed("g1".into(), "gone".into()));
    match handle.wait() {
        WaitStep::Done(Err(Error::DownloadFailed { gid, message })) => {
            assert_eq!(gid, "g1");
            assert_eq!(message, "gone");
        }
        _ => panic!("the wait should have failed"),
    }
}

#[test]
fn a_copy_of_a_report_says_the_same() {
    let report = DownloadProgress {
        gid: "g1".into(),
        status: DownloadStatus::Paused,
        total_length: 40,
        completed_length: 30,
        download_speed: 20,
        upload_speed: 10,
        error_message: Some("slow".into()),
    };
    let copy = report.clone();
    assert_eq!(copy.gid, "g1");
    assert_eq!(copy.status, DownloadStatus::Paused);
    assert_eq!(copy.total_length, 40);
    assert_eq!(copy.completed_length, 30);
    assert_eq!(copy.download_speed, 20);
    assert_eq!(copy.upload_speed, 10);
    assert_eq!(copy.error_message.as_deref(), Some("slow"));
    assert_eq!(DownloadProgress::default().clone().error_message, None);
}

#[test]
fn a_closed_channel_is_an_error_for_changed() {
    let (sender, mut handle) = open_channel("g1".into());
    assert!(matches!(handle.changed(), WaitStep::Await));
    sender.close();
    assert!(handle.receiver().has_changed().is_err());
    assert!(matches!(
        handle.changed(),
        WaitStep::Done(Err(Error::ChannelClosed))
    ));
    assert!(matches!(
        handle.wait(),
        WaitStep::Done(Err(Error::ChannelClosed))
    ));
    assert_eq!(handle.progress().status, DownloadStatus::Pending);
}

#[test]
fn the_next_report_is_an_unseen_one_even_on_a_closed_channel() {
    let p = || with_status(DownloadStatus::Error);
    for closed in [false, true] {
        match changed_step(p(), true, closed) {
            WaitStep::Done(Ok(latest)) => assert_eq!(latest.status, DownloadStatus::Error),
            _ => panic!("there should be a report"),
        }
    }
    assert!(matches!(
        changed_step(p(), false, true),
        WaitStep::Done(Err(Error::ChannelClosed))
    ));
    assert!(matches!(changed_step(p(), false, false), WaitStep::Await));
}

#[test]
fn a_snapshot_leaves_the_report_unseen() {
    let (mut sender, mut handle) = open_channel("g1".into());
    sender.send(DownloadProgress::failed("g1".into(), "gone".into()));
    sender.close();
    assert_eq!(handle.progress().status, DownloadStatus::Error);
    assert_eq!(handle.progress().status, DownloadStatus::Error);
    match handle.changed() {
        WaitStep::Done(Ok(p)) => assert_eq!(p.error_message.as_deref(), Some("gone")),
        _ => panic!("there should be a report"),
    }
}

#[test]
fn only_the_newest_report_is_taken_in() {
    let (mut sender, mut handle) = open_channel("g1".into());
    for n in 1..4u64 {
        let mut next = DownloadProgress::pending("g1".into());
        next.completed_length = n;
        sender.send(next);
    }
    match handle.changed() {
        WaitStep::Done(Ok(p)) => assert_eq!(p.completed_length, 3),
        _ => panic!("there should be a report"),
    }
    assert!(matches!(handle.changed(), WaitStep::Await));
}

#[test]
fn sending_without_a_receiver_is_harmless() {
    let (mut sender, handle) = open_channel("g1".into());
    drop(handle);
    sender.send(DownloadProgress::pending("g1".into()));
    assert_eq!(sender.gid(), "g1");
}

#[test]
fn outside_failures_become_errors_of_the_library() {
    assert!(matches!(rpc_result(Ok(3u8)), Ok(3)));
    let failed: Result<u8, Error> = rpc_result(Err(aria2_rs::Error::ChannelSend));
    assert!(matches!(
        failed,
        Err(Error::Rpc(aria2_rs::Error::ChannelSend))
    ));
    assert!(matches!(spawn_result(Ok(3u8)), Ok(3)));
    let reason = std::io::Error::from(std::io::ErrorKind::NotFound);
    match spawn_result::<u8>(Err(reason)) {
        Err(Error::ProcessStart(e)) => assert_eq!(e.kind(), std::io::ErrorKind::NotFound),
        _ => panic!("spawning should have failed"),
    }
}
