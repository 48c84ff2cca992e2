//! The conversation with `aria2c`: what it is started with, what it is asked
//! and what its answers mean. All of it as plain values, which the runtime
//! turns into the RPC client's own types.

use crate::error::Error;
use crate::progress::{optional_text, DownloadProgress, DownloadStatus, ProgressView};
use crate::text::{blank, decimal, decimal_string, is_blank, joined, texts};
use vstd::prelude::*;

verus! {

/// The state of a task as aria2 names it.
#[derive(Debug, Clone, Copy, PartialEq, Eq, Structural)]
pub enum TaskStatus {
    Active,
    Waiting,
    Paused,
    Error,
    Complete,
    Removed,
}

/// The part of aria2's answer to a status query that the library reads.
/// Every field may be missing.
#[derive(Debug, Clone)]
pub struct Status {
    pub status: Option<TaskStatus>,
    pub total_length: Option<u64>,
    pub completed_length: Option<u64>,
    pub download_speed: Option<u64>,
    pub upload_speed: Option<u64>,
    pub error_message: Option<String>,
}

/// A field of [`Status`], by which a query names what it asks for.
#[derive(Debug, Clone, Copy, PartialEq, Eq, Structural)]
pub enum StatusKey {
    Status,
    TotalLength,
    CompletedLength,
    DownloadSpeed,
    UploadSpeed,
    ErrorMessage,
}

/// The keys of a status query: one for each field of [`Status`].
pub fn status_keys() -> (keys: Vec<StatusKey>)
    ensures
        keys@ == seq![
            StatusKey::Status,
            StatusKey::TotalLength,
            StatusKey::CompletedLength,
            StatusKey::DownloadSpeed,
            StatusKey::UploadSpeed,
            StatusKey::ErrorMessage,
        ],
{
    vec![
        StatusKey::Status,
        StatusKey::TotalLength,
        StatusKey::CompletedLength,
        StatusKey::DownloadSpeed,
        StatusKey::UploadSpeed,
        StatusKey::ErrorMessage,
    ]
}

/// The library's name for a task state; a task without one is still pending.
pub open spec fn download_status(status: Option<TaskStatus>) -> DownloadStatus {
    match status {
        Some(TaskStatus::Active) => DownloadStatus::Active,
        Some(TaskStatus::Waiting) => DownloadStatus::Waiting,
        Some(TaskStatus::Paused) => DownloadStatus::Paused,
        Some(TaskStatus::Complete) => DownloadStatus::Complete,
        Some(TaskStatus::Error) => DownloadStatus::Error,
        Some(TaskStatus::Removed) => DownloadStatus::Removed,
        None => DownloadStatus::Pending,
    }
}

/// A number that aria2 may have left out, which then counts as 0.
pub open spec fn or_zero(n: Option<u64>) -> u64 {
    match n {
        Some(value) => value,
        None => 0,
    }
}

/// What aria2's answer says of the task `gid`.
pub open spec fn reported(gid: Seq<char>, st: Status) -> ProgressView {
    ProgressView {
        gid,
        status: download_status(st.status),
        total_length: or_zero(st.total_length),
        completed_length: or_zero(st.completed_length),
        download_speed: or_zero(st.download_speed),
        upload_speed: or_zero(st.upload_speed),
        error_message: optional_text(st.error_message),
    }
}

/// Turns aria2's answer on the task `gid` into a progress report.
pub fn status_to_progress(gid: &str, st: &Status) -> (progress: DownloadProgress)
    ensures
        progress@ == reported(gid@, *st),
{
    DownloadProgress {
        gid: gid.to_owned(),
        status: match st.status {
            Some(TaskStatus::Active) => DownloadStatus::Active,
            Some(TaskStatus::Waiting) => DownloadStatus::Waiting,
            Some(TaskStatus::Paused) => DownloadStatus::Paused,
            Some(TaskStatus::Complete) => DownloadStatus::Complete,
            Some(TaskStatus::Error) => DownloadStatus::Error,
            Some(TaskStatus::Removed) => DownloadStatus::Removed,
            None => DownloadStatus::Pending,
        },
        total_length: st.total_length.unwrap_or(0),
        completed_length: st.completed_length.unwrap_or(0),
        download_speed: st.download_speed.unwrap_or(0),
        upload_speed: st.upload_speed.unwrap_or(0),
        error_message: st.error_message.clone(),
    }
}

/// What a caller may ask of one download.
#[derive(Debug, Clone)]
pub struct DownloadOptions {
    /// Download directory.
    pub dir: Option<String>,
    /// Output file name.
    pub out: Option<String>,
    /// HTTP headers, each as `Name: value`.
    pub headers: Vec<String>,
    /// Number of connections per download.
    pub split: Option<i32>,
    /// Max connections per server.
    pub max_connection_per_server: Option<i32>,
    /// Proxy URL.
    pub proxy: Option<String>,
}

impl Default for DownloadOptions {
    fn default() -> (options: DownloadOptions)
        ensures
            options.dir is None,
            options.out is None,
            options.headers@ == Seq::<String>::empty(),
            options.split is None,
            options.max_connection_per_server is None,
            options.proxy is None,
    {
        DownloadOptions {
            dir: None,
            out: None,
            headers: Vec::new(),
            split: None,
            max_connection_per_server: None,
            proxy: None,
        }
    }
}

/// The options of an `aria2.addUri` request that the library sets. aria2's
/// own default holds for those that are `None`, and for all others.
#[derive(Debug, Clone)]
pub struct TaskOptions {
    pub dir: Option<String>,
    pub out: Option<String>,
    pub header: Option<Vec<String>>,
    pub split: Option<i32>,
    pub max_connection_per_server: Option<i32>,
    pub all_proxy: Option<String>,
}

/// The options that aria2 is given for what a caller asked. An empty header
/// list is left out of the request.
pub open spec fn task_options(opts: DownloadOptions) -> TaskOptions {
    TaskOptions {
        dir: opts.dir,
        out: opts.out,
        header: if opts.headers@.len() == 0 {
            None
        } else {
            Some(opts.headers)
        },
        split: opts.split,
        max_connection_per_server: opts.max_connection_per_server,
        all_proxy: opts.proxy,
    }
}

/// Turns a caller's options into those of the request.
pub fn into_task_options(opts: DownloadOptions) -> (options: TaskOptions)
    ensures
        options == task_options(opts),
{
    TaskOptions {
        dir: opts.dir,
        out: opts.out,
        header: if opts.headers.len() == 0 {
            None
        } else {
            Some(opts.headers)
        },
        split: opts.split,
        max_connection_per_server: opts.max_connection_per_server,
        all_proxy: opts.proxy,
    }
}

/// An `aria2.addUri` request: the mirrors of one file, and its options.
#[derive(Debug)]
pub struct AddUri {
    pub uris: Vec<String>,
    pub options: Option<TaskOptions>,
}

/// The URI lists that name something to download: at least one URI, and none
/// of them blank.
pub open spec fn valid_uris(uris: Seq<Seq<char>>) -> bool {
    uris.len() > 0 && forall|i: int| 0 <= i < uris.len() ==> !is_blank(#[trigger] uris[i])
}

/// Why a URI list is rejected.
pub open spec fn uri_complaint(uris: Seq<Seq<char>>) -> Seq<char> {
    if uris.len() == 0 {
        "no URI given"@
    } else {
        "blank URI"@
    }
}

/// Builds the request for a download from one or more mirrors.
pub fn add_uri(urls: Vec<String>, opts: Option<DownloadOptions>) -> (request: Result<AddUri, Error>)
    ensures
        valid_uris(texts(urls@)) ==> request == Ok::<AddUri, Error>(
            AddUri {
                uris: urls,
                options: match opts {
                    Some(o) => Some(task_options(o)),
                    None => None,
                },
            },
        ),
        !valid_uris(texts(urls@)) ==> (request matches Err(Error::InvalidInput { message })
            && message@ == uri_complaint(texts(urls@))),
{
    let ghost uris = texts(urls@);
    if urls.len() == 0 {
        return Err(Error::InvalidInput { message: "no URI given".to_owned() });
    }
    for i in 0..urls.len()
        invariant
            uris == texts(urls@),
            urls@.len() > 0,
            forall|j: int| 0 <= j < i ==> !is_blank(#[trigger] uris[j]),
    {
        if blank(urls[i].as_str()) {
            assert(is_blank(uris[i as int]));
            return Err(Error::InvalidInput { message: "blank URI".to_owned() });
        }
    }
    let options = match opts {
        Some(o) => Some(into_task_options(o)),
        None => None,
    };
    Ok(AddUri { uris: urls, options })
}

/// Where the RPC server listens, and the token that it wants.
#[derive(Debug)]
pub struct ConnectionMeta {
    pub url: String,
    pub token: Option<String>,
}

/// The address of the RPC server on the local host.
pub open spec fn rpc_url(port: u16) -> Seq<char> {
    "ws://127.0.0.1:"@ + decimal(port as nat) + "/jsonrpc"@
}

/// The token by which a client shows that it knows the secret.
pub open spec fn rpc_token(secret: Seq<char>) -> Seq<char> {
    "token:"@ + secret
}

/// How to reach the server that was started on `port` with `secret`.
pub fn connection_meta(port: u16, secret: &str) -> (meta: ConnectionMeta)
    ensures
        meta.url@ == rpc_url(port),
        optional_text(meta.token) == Some(rpc_token(secret@)),
{
    let number = decimal_string(port as u64);
    let mut url = joined("ws://127.0.0.1:", number.as_str());
    url.append("/jsonrpc");
    ConnectionMeta { url, token: Some(joined("token:", secret)) }
}

/// The command line of `aria2c`: an RPC server that only the local host can
/// reach, on `port` and with `secret`, and then the caller's own arguments.
pub open spec fn launch_line(
    port: u16,
    secret: Seq<char>,
    extra: Seq<Seq<char>>,
) -> Seq<Seq<char>> {
    seq![
        "--enable-rpc"@,
        "--rpc-listen-port="@ + decimal(port as nat),
        "--rpc-secret="@ + secret,
        "--rpc-listen-all=false"@,
        "--quiet"@,
    ] + extra
}

/// Builds the command line of `aria2c`.
pub fn launch_args(port: u16, secret: &str, extra_args: &Vec<String>) -> (args: Vec<String>)
    ensures
        texts(args@) == launch_line(port, secret@, texts(extra_args@)),
{
    let number = decimal_string(port as u64);
    let mut args: Vec<String> = Vec::new();
    args.push("--enable-rpc".to_owned());
    args.push(joined("--rpc-listen-port=", number.as_str()));
    args.push(joined("--rpc-secret=", secret));
    args.push("--rpc-listen-all=false".to_owned());
    args.push("--quiet".to_owned());
    let ghost extra = texts(extra_args@);
    for i in 0..extra_args.len()
        invariant
            extra == texts(extra_args@),
            texts(args@) =~= launch_line(port, secret@, extra.take(i as int)),
    {
        let ghost before = texts(args@);
        args.push(extra_args[i].clone());
        assert(texts(args@) =~= before.push(extra[i as int]));
    }
    args
}

} // verus!
