use aria2_downloader::aria2::{
    add_uri, connection_meta, into_task_options, launch_args, DownloadOptions,
};
use aria2_downloader::connect::{connect_step, ConnectStep, CONNECT_TIMEOUT_SECS};
use aria2_downloader::downloader::Aria2Downloader;
use aria2_downloader::error::Error;
use aria2_downloader::text::{blank, decimal_string, hex_string, joined};
use std::time::Duration;

fn complaint(urls: &[&str]) -> String {
    let urls = urls.iter().map(|u| u.to_string()).collect();
    match add_uri(urls, None) {
        Err(Error::InvalidInput { message }) => message,
        other => panic!("unexpected result: {other:?}"),
    }
}

#[test]
fn options_are_renamed_for_aria2() {
    let options = into_task_options(DownloadOptions {
        dir: Some("./downloads".into()),
        out: Some("archive.zip".into()),
        headers: vec!["Referer: https://example.com".into()],
        split: Some(4),
        max_connection_per_server: Some(8),
        proxy: Some("http://proxy:3128".into()),
    });
    assert_eq!(options.dir.as_deref(), Some("./downloads"));
    assert_eq!(options.out.as_deref(), Some("archive.zip"));
    assert_eq!(
        options.header,
        Some(vec!["Referer: https://example.com".to_string()])
    );
    assert_eq!(options.split, Some(4));
    assert_eq!(options.max_connection_per_server, Some(8));
    assert_eq!(options.all_proxy.as_deref(), Some("http://proxy:3128"));
}

#[test]
fn default_options_ask_for_nothing() {
    let options = into_task_options(DownloadOptions::default());
    assert_eq!(options.dir, None);
    assert_eq!(options.out, None);
    assert_eq!(options.header, None);
    assert_eq!(options.split, None);
    assert_eq!(options.max_connection_per_server, None);
    assert_eq!(options.all_proxy, None);
}

#[test]
fn a_request_keeps_its_mirrors_in_order() {
    let request = add_uri(
        vec![
            "https://mirror-a.example.com/archive.zip".into(),
            "https://mirror-b.example.com/archive.zip".into(),
        ],
        Some(DownloadOptions {
            split: Some(2),
            ..Default::default()
        }),
    )
    .unwrap();
    assert_eq!(
        request.uris,
        vec![
            "https://mirror-a.example.com/archive.zip",
            "https://mirror-b.example.com/archive.zip",
        ]
    );
    assert_eq!(request.options.unwrap().split, Some(2));
}

#[test]
fn a_request_without_options_has_none() {
    let request = add_uri(vec!["https://example.com/f".into()], None).unwrap();
    assert!(request.options.is_none());
}

#[test]
fn an_empty_list_is_rejected() {
    assert_eq!(complaint(&[]), "no URI given");
}

#[test]
fn a_blank_uri_is_rejected_wherever_it_stands() {
    assert_eq!(complaint(&[""]), "blank URI");
    assert_eq!(complaint(&["https://example.com/f", " \t\n"]), "blank URI");
    assert_eq!(complaint(&["\u{3000}", "https://example.com/f"]), "blank URI");
}

#[test]
fn a_single_url_is_a_list_of_one() {
    let downloader: Aria2Downloader<u8> =
        Aria2Downloader::new("aria2c".into(), Duration::from_secs(60));
    let request = downloader
        .download("https://example.com/file.zip", None)
        .unwrap();
    assert_eq!(request.uris, vec!["https://example.com/file.zip"]);
    assert!(matches!(
        downloader.download("  ", None),
        Err(Error::InvalidInput { .. })
    ));
    assert!(matches!(
        downloader.download_uris(Vec::new(), None),
        Err(Error::InvalidInput { .. })
    ));
}

#[test]
fn blank_agrees_with_trim() {
    for code in 0..=0x10ffffu32 {
        if let Some(c) = char::from_u32(code) {
            let s = c.to_string();
            assert_eq!(blank(&s), s.trim().is_empty(), "U+{code:04X}");
        }
    }
    assert!(blank(""));
    assert!(!blank("  x  "));
}

#[test]
fn numbers_are_written_as_the_formatter_does() {
    for n in [0u64, 1, 9, 10, 99, 100, 6800, 65535, 16800, u64::MAX] {
        assert_eq!(decimal_string(n), format!("{n}"));
    }
    for n in [
        0u128,
        1,
        15,
        16,
        255,
        0x1234_5678_9abc_def0,
        1_700_000_000_123_456_789,
        u128::MAX,
    ] {
        assert_eq!(hex_string(n), format!("{n:x}"));
    }
    assert_eq!(joined("a", "bc"), "abc");
}

#[test]
fn the_server_is_started_for_local_clients_only() {
    let extra = vec!["--check-certificate=false".to_string(), "-j1".to_string()];
    assert_eq!(
        launch_args(16800, "abc", &extra),
        vec![
            "--enable-rpc",
            "--rpc-listen-port=16800",
            "--rpc-secret=abc",
            "--rpc-listen-all=false",
            "--quiet",
            "--check-certificate=false",
            "-j1",
        ]
    );
}

#[test]
fn the_client_presents_the_secret() {
    let meta = connection_meta(6800, "abc");
    assert_eq!(meta.url, "ws://127.0.0.1:6800/jsonrpc");
    assert_eq!(meta.token.as_deref(), Some("token:abc"));
}

#[test]
fn a_connection_ends_the_attempts() {
    assert!(matches!(
        connect_step(Ok(5u8), u128::MAX, CONNECT_TIMEOUT_SECS),
        ConnectStep::Connected(5)
    ));
}

#[test]
fn attempts_are_repeated_until_the_timeout() {
    let attempt = || -> Result<u8, aria2_rs::Error> { Err(aria2_rs::Error::ChannelSend) };
    assert!(matches!(
        connect_step(attempt(), 9_999_999_999, CONNECT_TIMEOUT_SECS),
        ConnectStep::Retry
    ));
    match connect_step(attempt(), 10_000_000_000, CONNECT_TIMEOUT_SECS) {
        ConnectStep::Failed(Error::ConnectTimeout(d)) => assert_eq!(d, Duration::from_secs(10)),
        _ => panic!("the attempts should be over"),
    }
}
