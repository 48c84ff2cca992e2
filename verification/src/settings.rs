//! How a downloader is configured.

use crate::downloader::Aria2Downloader;
use std::path::PathBuf;
use std::time::Duration;
use vstd::prelude::*;

verus! {

/// `std::path::PathBuf`. Opaque: it is only carried.
#[verifier::external_type_specification]
#[verifier::external_body]
pub struct ExPathBuf(std::path::PathBuf);

/// The duration of `secs` whole seconds, as `std::time::Duration::from_secs`
/// makes it.
pub uninterp spec fn whole_seconds(secs: u64) -> Duration;

/// `std::time::Duration::from_secs` makes the duration of that many whole
/// seconds. It depends on its argument alone; what a `Duration` is made of is
/// left unsaid.
pub assume_specification[ std::time::Duration::from_secs ](secs: u64) -> (duration: Duration)
    ensures
        duration == whole_seconds(secs),
;

/// What a downloader is configured with.
#[derive(Debug)]
pub struct Settings {
    /// The `aria2c` executable.
    pub aria2_path: PathBuf,
    /// How long the process stays up with nothing to do.
    pub idle_timeout: Duration,
    /// The local port of the RPC server.
    pub rpc_port: u16,
    /// How often the progress of every download is queried.
    pub poll_interval: Duration,
    /// Extra command line arguments for `aria2c`.
    pub extra_args: Vec<String>,
}

/// The settings that hold where nothing else is asked for.
pub open spec fn is_default_for(settings: Settings, aria2_path: PathBuf) -> bool {
    &&& settings.aria2_path == aria2_path
    &&& settings.idle_timeout == whole_seconds(300)
    &&& settings.rpc_port == 6800
    &&& settings.poll_interval == whole_seconds(1)
    &&& settings.extra_args@ == Seq::<String>::empty()
}

/// Collects the settings of a downloader.
pub struct Aria2DownloaderBuilder {
    settings: Settings,
}

impl Aria2DownloaderBuilder {
    /// The settings collected so far.
    pub closed spec fn settings(self) -> Settings {
        self.settings
    }

    /// Starts from the default settings.
    pub fn new(aria2_path: PathBuf) -> (builder: Aria2DownloaderBuilder)
        ensures
            is_default_for(builder.settings(), aria2_path),
    {
        Aria2DownloaderBuilder {
            settings: Settings {
                aria2_path,
                idle_timeout: Duration::from_secs(300),
                rpc_port: 6800,
                poll_interval: Duration::from_secs(1),
                extra_args: Vec::new(),
            },
        }
    }

    pub fn idle_timeout(self, d: Duration) -> (builder: Aria2DownloaderBuilder)
        ensures
            builder.settings() == (Settings { idle_timeout: d, ..self.settings() }),
    {
        Aria2DownloaderBuilder { settings: Settings { idle_timeout: d, ..self.settings } }
    }

    pub fn rpc_port(self, port: u16) -> (builder: Aria2DownloaderBuilder)
        ensures
            builder.settings() == (Settings { rpc_port: port, ..self.settings() }),
    {
        Aria2DownloaderBuilder { settings: Settings { rpc_port: port, ..self.settings } }
    }

    pub fn poll_interval(self, d: Duration) -> (builder: Aria2DownloaderBuilder)
        ensures
            builder.settings() == (Settings { poll_interval: d, ..self.settings() }),
    {
        Aria2DownloaderBuilder { settings: Settings { poll_interval: d, ..self.settings } }
    }

    /// Extra CLI arguments passed to aria2c on startup.
    pub fn extra_args(self, args: Vec<String>) -> (builder: Aria2DownloaderBuilder)
        ensures
            builder.settings() == (Settings { extra_args: args, ..self.settings() }),
    {
        Aria2DownloaderBuilder { settings: Settings { extra_args: args, ..self.settings } }
    }

    /// A downloader with these settings. No process is started yet.
    pub fn build<P>(self) -> (downloader: Aria2Downloader<P>)
        ensures
            downloader.wf(),
            downloader@.settings == self.settings(),
            downloader@.is_fresh(),
    {
        Aria2Downloader::with_settings(self.settings)
    }
}

} // verus!
