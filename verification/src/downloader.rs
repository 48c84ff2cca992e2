//! The state of a downloader, and what each operation does to it.
//!
//! A downloader holds at most one `aria2c` process. Every process that is
//! started belongs to a generation of its own, by which the background
//! activities that serve it notice that it is gone.

use crate::aria2::{
    add_uri, connection_meta, launch_args, launch_line, rpc_token, rpc_url, task_options,
    uri_complaint, valid_uris, AddUri, ConnectionMeta, DownloadOptions,
};
use crate::channel::{is_handle_on, is_signal, DownloadHandle, Signal, SignalView};
use crate::error::Error;
use crate::progress::{optional_text, DownloadProgress, ProgressView};
use crate::registry::{TaskTable, TaskTableView};
use crate::settings::{is_default_for, whole_seconds, Aria2DownloaderBuilder, Settings};
use crate::text::{hex, hex_string, texts};
use std::path::PathBuf;
use std::sync::Arc;
use std::time::Duration;
use tokio::sync::{watch, Notify};
use vstd::prelude::*;

verus! {

/// What looking at the child process has shown.
#[derive(Debug, Clone, Copy, PartialEq, Eq, Structural)]
pub enum ChildState {
    /// It is running.
    Alive,
    /// It has exited.
    Exited,
    /// Its state could not be determined.
    Unknown,
}

/// What is needed to start `aria2c`.
pub struct Launch {
    /// The generation of the process.
    pub generation: u64,
    /// The command line.
    pub args: Vec<String>,
    /// How to reach its RPC server.
    pub connection: ConnectionMeta,
}

/// What has to be done so that a process runs.
pub enum StartStep {
    /// Nothing: the process that is held is running.
    Running,
    /// Spawn `aria2c`, connect to it, and report back with
    /// [`Aria2Downloader::started`].
    Launch(Launch),
}

/// What the tasks of a process that was found dead are told.
pub open spec fn loss_message(child: ChildState) -> Seq<char> {
    if child is Exited {
        "aria2c process exited unexpectedly"@
    } else {
        "failed to inspect aria2c process state"@
    }
}

/// What the tasks of a process that is stopped on purpose are told.
pub open spec fn stop_message() -> Seq<char> {
    "aria2c process stopped"@
}

/// The counter value after `generation`.
pub open spec fn generation_after(generation: u64) -> u64 {
    if generation == u64::MAX {
        0
    } else {
        (generation + 1) as u64
    }
}

/// The state of an [`Aria2Downloader`].
pub struct DownloaderView<P> {
    pub settings: Settings,
    /// The process that is held.
    pub process: Option<P>,
    pub tasks: TaskTableView,
    /// Raised when a download is submitted or ends.
    pub activity: SignalView,
    /// Tells the background activities to end.
    pub shutdown: bool,
    /// Raised when `shutdown` is set.
    pub shutdown_signal: SignalView,
    /// The generation of the next process.
    pub next_generation: u64,
    /// The generation of the process that is held, 0 if there is none.
    pub active_generation: u64,
}

impl<P> DownloaderView<P> {
    /// A downloader that was just made: it holds no process and tracks
    /// nothing.
    pub open spec fn is_fresh(self) -> bool {
        &&& self.process is None
        &&& self.tasks == TaskTableView::empty()
        &&& self.activity.singles == 0
        &&& self.activity.broadcasts == 0
        &&& !self.shutdown
        &&& self.shutdown_signal.singles == 0
        &&& self.shutdown_signal.broadcasts == 0
        &&& self.next_generation == 1
        &&& self.active_generation == 0
    }

    /// Whether background activities of `generation` have to end.
    pub open spec fn has_ended(self, generation: u64) -> bool {
        self.shutdown || self.active_generation != generation
    }

    /// Every tracked download has failed with `message`.
    pub open spec fn tasks_failed(self, message: Seq<char>) -> DownloaderView<P> {
        if self.tasks.is_idle() {
            self
        } else {
            DownloaderView {
                tasks: self.tasks.all_failed(message),
                activity: self.activity.woke_one(),
                ..self
            }
        }
    }

    /// The process is gone, and its downloads have failed with `message`.
    pub open spec fn process_lost(self, message: Seq<char>) -> DownloaderView<P> {
        DownloaderView { process: None, active_generation: 0, ..self }.tasks_failed(message)
    }

    /// The process that is held, if any, was given up.
    pub open spec fn stopped(self) -> DownloaderView<P> {
        if self.process is Some {
            self.process_lost(stop_message())
        } else {
            self
        }
    }

    /// The background activities were told to end.
    pub open spec fn closing(self) -> DownloaderView<P> {
        DownloaderView {
            shutdown: true,
            shutdown_signal: self.shutdown_signal.woke_all(),
            ..self
        }
    }

    /// The downloader was shut down: no process, no download in flight.
    pub open spec fn shut_down(self) -> DownloaderView<P> {
        self.closing().stopped().tasks_failed(stop_message())
    }

    /// Whether the process that is held is alive, given what looking at it has
    /// shown.
    pub open spec fn is_alive(self, child: ChildState) -> bool {
        self.process is Some && child is Alive
    }

    /// A new process is about to be started in place of one that was found as
    /// `child`, if one was held.
    pub open spec fn launching(self, child: ChildState) -> DownloaderView<P> {
        let free = if self.process is Some {
            self.process_lost(loss_message(child))
        } else {
            self
        };
        DownloaderView {
            shutdown: false,
            next_generation: generation_after(self.next_generation),
            ..free
        }
    }

    /// `process` was started as `generation`.
    pub open spec fn started(self, generation: u64, process: P) -> DownloaderView<P> {
        DownloaderView { process: Some(process), active_generation: generation, ..self }
    }

    /// A download was submitted.
    pub open spec fn submitted(self) -> DownloaderView<P> {
        DownloaderView { activity: self.activity.woke_one(), ..self }
    }

    /// The download `gid` was accepted by aria2, and got `channel`.
    pub open spec fn accepted(
        self,
        gid: Seq<char>,
        channel: watch::Sender<DownloadProgress>,
    ) -> DownloaderView<P> {
        DownloaderView { tasks: self.tasks.opened(gid, channel), ..self }
    }

    /// The download `gid` was told `report`.
    pub open spec fn told(self, gid: Seq<char>, report: ProgressView) -> DownloaderView<P> {
        DownloaderView { tasks: self.tasks.told(gid, report), ..self }
    }

    /// The downloads `gids` have ended.
    pub open spec fn retired(self, gids: Seq<Seq<char>>) -> DownloaderView<P> {
        if gids.len() == 0 {
            self
        } else {
            DownloaderView {
                tasks: self.tasks.without(gids.to_set()),
                activity: self.activity.woke_one(),
                ..self
            }
        }
    }
}

/// `launch` starts the process `generation` with `settings`, and with the
/// secret that `nanos` gives.
pub open spec fn is_launch_for(
    launch: Launch,
    generation: u64,
    settings: Settings,
    nanos: u128,
) -> bool {
    let secret = hex(nanos as nat);
    &&& launch.generation == generation
    &&& texts(launch.args@) == launch_line(settings.rpc_port, secret, texts(settings.extra_args@))
    &&& launch.connection.url@ == rpc_url(settings.rpc_port)
    &&& optional_text(launch.connection.token) == Some(rpc_token(secret))
}

/// Downloads files through a managed aria2c process, of type `P`.
///
/// The process is started lazily on the first download and stopped
/// automatically when idle for longer than the configured timeout.
pub struct Aria2Downloader<P> {
    settings: Settings,
    process: Option<P>,
    tasks: TaskTable,
    activity: Signal,
    shutdown: bool,
    shutdown_signal: Signal,
    next_generation: u64,
    active_generation: u64,
}

impl<P> View for Aria2Downloader<P> {
    type V = DownloaderView<P>;

    closed spec fn view(&self) -> DownloaderView<P> {
        DownloaderView {
            settings: self.settings,
            process: self.process,
            tasks: self.tasks@,
            activity: self.activity@,
            shutdown: self.shutdown,
            shutdown_signal: self.shutdown_signal@,
            next_generation: self.next_generation,
            active_generation: self.active_generation,
        }
    }
}

impl<P> Aria2Downloader<P> {
    /// The task table is in order, and the signals are those that the
    /// downloader was made with.
    pub closed spec fn in_order(self) -> bool {
        self.tasks.wf() && self.activity.wf() && self.shutdown_signal.wf()
    }

    /// The downloader is in order, and what it says of its downloads' channels
    /// is what their handles get.
    pub open spec fn wf(self) -> bool {
        self.in_order() && self@.tasks.kept()
    }

    /// Shorthand: `aria2_path` + `idle_timeout`, rest defaults.
    pub fn new(aria2_path: PathBuf, idle_timeout: Duration) -> (downloader: Aria2Downloader<P>)
        ensures
            downloader.wf(),
            downloader@.is_fresh(),
            downloader@.settings.idle_timeout == idle_timeout,
            is_default_for(
                Settings { idle_timeout: whole_seconds(300), ..downloader@.settings },
                aria2_path,
            ),
    {
        Aria2Downloader::<P>::builder(aria2_path).idle_timeout(idle_timeout).build()
    }

    /// Collects settings, starting from the defaults.
    pub fn builder(aria2_path: PathBuf) -> (builder: Aria2DownloaderBuilder)
        ensures
            is_default_for(builder.settings(), aria2_path),
    {
        Aria2DownloaderBuilder::new(aria2_path)
    }

    /// A downloader with the given settings.
    pub fn with_settings(settings: Settings) -> (downloader: Aria2Downloader<P>)
        ensures
            downloader.wf(),
            downloader@.settings == settings,
            downloader@.is_fresh(),
    {
        Aria2Downloader {
            settings,
            process: None,
            tasks: TaskTable::new(),
            activity: Signal::new(),
            shutdown: false,
            shutdown_signal: Signal::new(),
            next_generation: 1,
            active_generation: 0,
        }
    }

    /// What the downloader is configured with.
    pub fn settings(&self) -> (settings: &Settings)
        ensures
            *settings == self@.settings,
    {
        &self.settings
    }

    /// The signal that is raised when a download is submitted or ends.
    pub fn activity(&self) -> (notify: &Arc<Notify>)
        requires
            self.wf(),
        ensures
            is_signal(**notify, self@.activity),
    {
        self.activity.notify()
    }

    /// The signal that is raised when the background activities have to end.
    pub fn shutdown_signal(&self) -> (notify: &Arc<Notify>)
        requires
            self.wf(),
        ensures
            is_signal(**notify, self@.shutdown_signal),
    {
        self.shutdown_signal.notify()
    }

    /// The process that is held, or [`Error::NotRunning`].
    pub fn client(&self) -> (process: Result<&P, Error>)
        ensures
            process == (match self@.process {
                Some(p) => Ok::<&P, Error>(&p),
                None => Err::<&P, Error>(Error::NotRunning),
            }),
    {
        match &self.process {
            Some(process) => Ok(process),
            None => Err(Error::NotRunning),
        }
    }

    /// The process that is held, for looking at its state.
    pub fn process_mut(&mut self) -> (process: Option<&mut P>)
        requires
            old(self).wf(),
        ensures
            final(self).wf(),
            match old(self)@.process {
                None => process is None && final(self)@ == old(self)@,
                Some(p) => {
                    &&& process is Some
                    &&& *(process->0) == p
                    &&& final(self)@ == (DownloaderView {
                        process: Some(*final(process->0)),
                        ..old(self)@
                    })
                },
            },
    {
        self.process.as_mut()
    }

    /// Returns `true` if the aria2c process is currently running, given what
    /// looking at the process that is held has shown.
    pub fn is_running(&self, child: ChildState) -> (running: bool)
        ensures
            running == self@.is_alive(child),
    {
        self.process.is_some() && child == ChildState::Alive
    }

    /// Whether `generation` is the process that is held.
    pub fn is_generation_active(&self, generation: u64) -> (active: bool)
        ensures
            active == (self@.active_generation == generation),
    {
        self.active_generation == generation
    }

    /// Whether the background activities of `generation` have to end.
    pub fn has_ended(&self, generation: u64) -> (ended: bool)
        ensures
            ended == self@.has_ended(generation),
    {
        self.shutdown || !self.is_generation_active(generation)
    }

    /// Whether no download is tracked.
    pub fn is_idle(&self) -> (idle: bool)
        requires
            self.wf(),
        ensures
            idle == self@.tasks.is_idle(),
    {
        self.tasks.is_empty()
    }

    /// The GIDs of the tracked downloads, each once, in no particular order.
    pub fn gids(&self) -> (gids: Vec<String>)
        requires
            self.wf(),
        ensures
            texts(gids@).no_duplicates(),
            texts(gids@).to_set() == self@.tasks.live.dom(),
    {
        self.tasks.gids()
    }

    /// Fails every tracked download with `message`, and wakes the idle watcher
    /// if there was any.
    pub fn fail_all_tasks(&mut self, message: &str)
        requires
            old(self).wf(),
        ensures
            final(self).wf(),
            final(self)@ == old(self)@.tasks_failed(message@),
    {
        if self.tasks.is_empty() {
            return;
        }
        self.tasks.fail_all(message);
        self.activity.wake_one();
    }

    /// Gives up the process that is held, if any, and fails its downloads. The
    /// caller has to kill what is returned.
    pub fn stop_process(&mut self) -> (process: Option<P>)
        requires
            old(self).wf(),
        ensures
            final(self).wf(),
            process == old(self)@.process,
            final(self)@ == old(self)@.stopped(),
    {
        let process = self.process.take();
        if process.is_some() {
            self.active_generation = 0;
            self.fail_all_tasks("aria2c process stopped");
        }
        process
    }

    /// Tells the background activities to end, as they must when the
    /// downloader is dropped.
    pub fn close(&mut self)
        requires
            old(self).wf(),
        ensures
            final(self).wf(),
            final(self)@ == old(self)@.closing(),
    {
        self.shutdown = true;
        self.shutdown_signal.wake_all();
    }

    /// Shuts the downloader down: ends the background activities, gives up the
    /// process that is held, and fails every download in flight. The caller
    /// has to kill what is returned.
    pub fn shutdown(&mut self) -> (process: Option<P>)
        requires
            old(self).wf(),
        ensures
            final(self).wf(),
            process == old(self)@.process,
            final(self)@ == old(self)@.shut_down(),
    {
        self.close();
        let process = self.stop_process();
        self.fail_all_tasks("aria2c process stopped");
        process
    }

    /// Decides what has to be done so that a process runs, given what looking
    /// at the process that is held has shown (which is ignored if none is
    /// held). A process that is not alive is given up first, and its downloads
    /// are failed. `nanos`, the time since the epoch, gives the secret of a new
    /// process.
    pub fn ensure_running(&mut self, child: ChildState, nanos: u128) -> (step: StartStep)
        requires
            old(self).wf(),
        ensures
            final(self).wf(),
            old(self)@.is_alive(child) ==> step is Running && final(self)@ == old(self)@,
            !old(self)@.is_alive(child) ==> {
                &&& step matches StartStep::Launch(launch)
                &&& is_launch_for(
                    launch,
                    old(self)@.next_generation,
                    old(self)@.settings,
                    nanos,
                )
                &&& final(self)@ == old(self)@.launching(child)
            },
    {
        if self.process.is_some() {
            match child {
                ChildState::Alive => {
                    return StartStep::Running;
                },
                ChildState::Exited => {
                    self.active_generation = 0;
                    self.process = None;
                    self.fail_all_tasks("aria2c process exited unexpectedly");
                },
                ChildState::Unknown => {
                    self.active_generation = 0;
                    self.process = None;
                    self.fail_all_tasks("failed to inspect aria2c process state");
                },
            }
        }
        self.shutdown = false;
        let generation: u64 = self.next_generation;
        self.next_generation = if generation == u64::MAX {
            0
        } else {
            generation + 1
        };
        let secret = hex_string(nanos);
        let args = launch_args(self.settings.rpc_port, secret.as_str(), &self.settings.extra_args);
        let connection = connection_meta(self.settings.rpc_port, secret.as_str());
        StartStep::Launch(Launch { generation, args, connection })
    }

    /// Takes charge of `process`, which was started as `generation`.
    pub fn started(&mut self, generation: u64, process: P)
        requires
            old(self).wf(),
        ensures
            final(self).wf(),
            final(self)@ == old(self)@.started(generation, process),
    {
        self.active_generation = generation;
        self.process = Some(process);
    }

    /// The request for a single-URL download.
    pub fn download(&self, url: &str, opts: Option<DownloadOptions>) -> (request: Result<
        AddUri,
        Error,
    >)
        ensures
            valid_uris(seq![url@]) ==> {
                &&& request matches Ok(r)
                &&& texts(r.uris@) == seq![url@]
                &&& r.options == (match opts {
                    Some(o) => Some(task_options(o)),
                    None => None,
                })
            },
            !valid_uris(seq![url@]) ==> (request matches Err(Error::InvalidInput { message })
                && message@ == uri_complaint(seq![url@])),
    {
        let urls = vec![url.to_owned()];
        assert(texts(urls@) =~= seq![url@]);
        self.download_uris(urls, opts)
    }

    /// The request for a download with multiple mirror URIs.
    pub fn download_uris(
        &self,
        urls: Vec<String>,
        opts: Option<DownloadOptions>,
    ) -> (request: Result<AddUri, Error>)
        ensures
            valid_uris(texts(urls@)) ==> request == Ok::<AddUri, Error>(
                AddUri {
                    uris: urls,
                    options: match opts {
                        Some(o) => Some(task_options(o)),
                        None => None,
                    },
                },
            ),
            !valid_uris(texts(urls@)) ==> (request matches Err(Error::InvalidInput { message })
                && message@ == uri_complaint(texts(urls@))),
    {
        add_uri(urls, opts)
    }

    /// Announces a submission, which restarts the idle countdown, and returns
    /// the process to send it to, or [`Error::NotRunning`].
    pub fn submit(&mut self) -> (process: Result<&P, Error>)
        requires
            old(self).wf(),
        ensures
            final(self).wf(),
            final(self)@ == old(self)@.submitted(),
            process == (match old(self)@.process {
                Some(p) => Ok::<&P, Error>(&p),
                None => Err::<&P, Error>(Error::NotRunning),
            }),
    {
        self.activity.wake_one();
        self.client()
    }

    /// Tracks the download that aria2 has accepted as `gid`, and returns the
    /// handle to it.
    pub fn accept(&mut self, gid: String) -> (handle: DownloadHandle)
        requires
            old(self).wf(),
        ensures
            final(self).wf(),
            final(self)@ == old(self)@.accepted(gid@, final(self)@.tasks.live[gid@].channel),
            is_handle_on(handle, gid@, final(self)@.tasks.live[gid@]),
    {
        self.tasks.open(gid)
    }

    /// Tells the download `gid` how it stands, if it is tracked.
    pub fn publish(&mut self, gid: &String, progress: DownloadProgress)
        requires
            old(self).wf(),
            progress@.gid == gid@,
        ensures
            final(self).wf(),
            final(self)@ == old(self)@.told(gid@, progress@),
    {
        self.tasks.publish(gid, progress);
    }

    /// Stops tracking `gids`, which have ended, and wakes the idle watcher if
    /// there is any.
    pub fn retire(&mut self, gids: &Vec<String>)
        requires
            old(self).wf(),
        ensures
            final(self).wf(),
            final(self)@ == old(self)@.retired(texts(gids@)),
    {
        if gids.len() > 0 {
            self.tasks.remove(gids);
            self.activity.wake_one();
        }
    }
}

} // verus!
