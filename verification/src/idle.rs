//! The idle watcher: it stops the process once nothing has been downloaded for
//! the configured time.
//!
//! The runtime waits as it is told to, and hands back what ended the wait.

use crate::downloader::{Aria2Downloader, DownloaderView};
use std::time::Duration;
use vstd::prelude::*;

verus! {

/// What ended a wait of the idle watcher.
#[derive(Debug, Clone, Copy, PartialEq, Eq, Structural)]
pub enum IdleEvent {
    /// Nothing: the watcher has just been started.
    Begin,
    /// A download was submitted, or some have ended.
    Activity,
    /// The idle countdown has run out.
    TimedOut,
    /// The background activities were told to end.
    Shutdown,
}

/// What the idle watcher does next.
pub enum IdleStep<P> {
    /// End.
    Exit,
    /// Wait for activity or shutdown.
    AwaitActivity,
    /// Wait for activity or shutdown, but no longer than this.
    Countdown(Duration),
    /// End, after killing the process that was given up.
    Stopped(Option<P>),
}

/// Whether the countdown of the watcher of `generation` has run out on a
/// process that has nothing to do.
pub open spec fn idle_expired<P>(
    downloader: DownloaderView<P>,
    generation: u64,
    event: IdleEvent,
) -> bool {
    event is TimedOut && downloader.active_generation == generation && downloader.tasks.is_idle()
}

/// What the watcher of `generation` does after `event`.
pub open spec fn idle_step<P>(
    downloader: DownloaderView<P>,
    generation: u64,
    event: IdleEvent,
) -> IdleStep<P> {
    if event is Shutdown {
        IdleStep::Exit
    } else if idle_expired(downloader, generation, event) {
        IdleStep::Stopped(downloader.process)
    } else if downloader.has_ended(generation) {
        IdleStep::Exit
    } else if !downloader.tasks.is_idle() {
        IdleStep::AwaitActivity
    } else {
        IdleStep::Countdown(downloader.settings.idle_timeout)
    }
}

/// Watches over one process.
pub struct IdleWatcher {
    generation: u64,
}

impl IdleWatcher {
    /// The process that is watched.
    pub closed spec fn generation(self) -> u64 {
        self.generation
    }

    /// The watcher of the process `generation`.
    pub fn new(generation: u64) -> (watcher: IdleWatcher)
        ensures
            watcher.generation() == generation,
    {
        IdleWatcher { generation }
    }

    /// Decides what to do after `event`. A process that has been idle for too
    /// long is given up here and now, so that no download can slip in between.
    pub fn step<P>(&self, downloader: &mut Aria2Downloader<P>, event: IdleEvent) -> (step: IdleStep<
        P,
    >)
        requires
            old(downloader).wf(),
        ensures
            final(downloader).wf(),
            step == idle_step(old(downloader)@, self.generation(), event),
            final(downloader)@ == (if idle_expired(old(downloader)@, self.generation(), event) {
                old(downloader)@.stopped()
            } else {
                old(downloader)@
            }),
    {
        if event == IdleEvent::Shutdown {
            return IdleStep::Exit;
        }
        if event == IdleEvent::TimedOut && downloader.is_generation_active(self.generation)
            && downloader.is_idle() {
            return IdleStep::Stopped(downloader.stop_process());
        }
        if downloader.has_ended(self.generation) {
            return IdleStep::Exit;
        }
        if !downloader.is_idle() {
            return IdleStep::AwaitActivity;
        }
        IdleStep::Countdown(downloader.settings().idle_timeout)
    }
}

} // verus!
