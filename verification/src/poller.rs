//! The progress poller: it asks aria2 for the status of every tracked
//! download, round by round, and passes the answers on.
//!
//! The runtime waits for the next tick and performs the queries; each outcome
//! goes to one of the step functions, which says what to do next.

use crate::aria2::{reported, status_to_progress, Status};
use crate::downloader::{Aria2Downloader, DownloaderView};
use crate::progress::{contact_lost, DownloadProgress, ProgressView};
use crate::text::texts;
use vstd::prelude::*;

verus! {

/// What the poller does next.
pub enum PollStep {
    /// End: the process it serves is gone, or the downloader shuts down.
    Exit,
    /// Wait for the next tick.
    Wait,
    /// Get hold of the RPC client for a round of queries, and go on with
    /// [`Poller::connect`].
    Connect,
    /// Query the status of this download, and go on with [`Poller::reply`].
    Query(String),
}

/// The contents of a [`PollStep`].
pub enum PollStepView {
    Exit,
    Wait,
    Connect,
    Query(Seq<char>),
}

impl View for PollStep {
    type V = PollStepView;

    open spec fn view(&self) -> PollStepView {
        match *self {
            PollStep::Exit => PollStepView::Exit,
            PollStep::Wait => PollStepView::Wait,
            PollStep::Connect => PollStepView::Connect,
            PollStep::Query(gid) => PollStepView::Query(gid@),
        }
    }
}

/// The state of a [`Poller`].
pub struct PollerView {
    /// The process that the poller serves.
    pub generation: u64,
    /// The downloads of this round that have not been answered yet. The last
    /// one is next.
    pub pending: Seq<Seq<char>>,
    /// The downloads that this round has found to have ended.
    pub finished: Seq<Seq<char>>,
}

impl PollerView {
    /// What to do about the downloads that are still pending.
    pub open spec fn next_query(self) -> PollStepView {
        if self.pending.len() == 0 {
            PollStepView::Wait
        } else {
            PollStepView::Query(self.pending.last())
        }
    }

    /// The poller at the start of a round over `gids`.
    pub open spec fn starts_round(self, gids: Set<Seq<char>>) -> bool {
        &&& self.pending.no_duplicates()
        &&& self.pending.to_set() == gids
        &&& self.finished == Seq::<Seq<char>>::empty()
    }

    /// The poller after the download that is next was answered with `report`.
    pub open spec fn answered(self, report: ProgressView) -> PollerView {
        PollerView {
            pending: self.pending.drop_last(),
            finished: if report.finished() {
                self.finished.push(self.pending.last())
            } else {
                self.finished
            },
            ..self
        }
    }

    /// The poller between two rounds.
    pub open spec fn resting(self) -> PollerView {
        PollerView { pending: Seq::empty(), finished: Seq::empty(), ..self }
    }
}

/// What the answer to a status query says of `gid`. A query that failed means
/// that the download is lost.
pub open spec fn answer(gid: Seq<char>, reply: Result<Status, String>) -> ProgressView {
    match reply {
        Ok(st) => reported(gid, st),
        Err(detail) => contact_lost(gid, detail@),
    }
}

/// The poller after `reply` has come for the download that is next.
pub open spec fn poller_after(poller: PollerView, reply: Result<Status, String>) -> PollerView {
    if poller.pending.len() == 0 {
        poller
    } else {
        let on = poller.answered(answer(poller.pending.last(), reply));
        if on.pending.len() == 0 {
            on.resting()
        } else {
            on
        }
    }
}

/// The downloader after `reply` has come for the poller's next download: that
/// download was told, and with the last reply of a round the downloads that
/// have ended are no longer tracked.
pub open spec fn downloader_after<P>(
    downloader: DownloaderView<P>,
    poller: PollerView,
    reply: Result<Status, String>,
) -> DownloaderView<P> {
    if poller.pending.len() == 0 {
        downloader
    } else {
        let gid = poller.pending.last();
        let report = answer(gid, reply);
        let on = poller.answered(report);
        if on.pending.len() == 0 {
            downloader.told(gid, report).retired(on.finished)
        } else {
            downloader.told(gid, report)
        }
    }
}

/// Queries the progress of the tracked downloads on behalf of one process.
pub struct Poller {
    generation: u64,
    pending: Vec<String>,
    finished: Vec<String>,
}

impl View for Poller {
    type V = PollerView;

    closed spec fn view(&self) -> PollerView {
        PollerView {
            generation: self.generation,
            pending: texts(self.pending@),
            finished: texts(self.finished@),
        }
    }
}

impl Poller {
    /// The poller of the process `generation`, between two rounds.
    pub fn new(generation: u64) -> (poller: Poller)
        ensures
            poller@ == (PollerView { generation, pending: Seq::empty(), finished: Seq::empty() }),
    {
        let poller = Poller { generation, pending: Vec::new(), finished: Vec::new() };
        assert(texts(poller.finished@) =~= Seq::empty());
        poller
    }

    /// The next tick has come.
    pub fn tick<P>(&mut self, downloader: &Aria2Downloader<P>) -> (step: PollStep)
        requires
            downloader.wf(),
        ensures
            final(self)@.generation == old(self)@.generation,
            downloader@.has_ended(old(self)@.generation) ==> step is Exit && final(self)@ == old(
                self,
            )@,
            !downloader@.has_ended(old(self)@.generation) && downloader@.tasks.is_idle() ==> step is
                Wait && final(self)@ == old(self)@,
            !downloader@.has_ended(old(self)@.generation) && !downloader@.tasks.is_idle() ==> step is
                Connect && final(self)@.starts_round(downloader@.tasks.live.dom()),
    {
        if downloader.has_ended(self.generation) {
            return PollStep::Exit;
        }
        if downloader.is_idle() {
            return PollStep::Wait;
        }
        self.pending = downloader.gids();
        self.finished = Vec::new();
        assert(texts(self.finished@) =~= Seq::empty());
        PollStep::Connect
    }

    /// The process that is held, if any, has been looked up for a round.
    pub fn connect<P>(&self, downloader: &Aria2Downloader<P>) -> (step: PollStep)
        ensures
            step@ == (if downloader@.process is Some {
                self@.next_query()
            } else {
                PollStepView::Exit
            }),
    {
        match downloader.client() {
            Ok(_) => self.next_query(),
            Err(_) => PollStep::Exit,
        }
    }

    fn next_query(&self) -> (step: PollStep)
        ensures
            step@ == self@.next_query(),
    {
        let n: usize = self.pending.len();
        if n == 0 {
            PollStep::Wait
        } else {
            PollStep::Query(self.pending[n - 1].clone())
        }
    }

    /// The answer to the current query has come: aria2's status, or the text
    /// of the error that the query failed with.
    pub fn reply<P>(
        &mut self,
        downloader: &mut Aria2Downloader<P>,
        reply: Result<Status, String>,
    ) -> (step: PollStep)
        requires
            old(downloader).wf(),
        ensures
            final(downloader).wf(),
            final(self)@ == poller_after(old(self)@, reply),
            final(downloader)@ == downloader_after(old(downloader)@, old(self)@, reply),
            step@ == final(self)@.next_query(),
    {
        let ghost before = self@;
        match self.pending.pop() {
            None => PollStep::Wait,
            Some(gid) => {
                let progress = match reply {
                    Ok(st) => status_to_progress(gid.as_str(), &st),
                    Err(detail) => DownloadProgress::contact_lost(gid.clone(), detail.as_str()),
                };
                assert(texts(self.pending@) =~= before.pending.drop_last());
                let done = progress.is_finished();
                downloader.publish(&gid, progress);
                if done {
                    let ghost so_far = texts(self.finished@);
                    let ghost name = gid@;
                    self.finished.push(gid);
                    assert(texts(self.finished@) =~= so_far.push(name));
                }
                if self.pending.len() == 0 {
                    downloader.retire(&self.finished);
                    self.finished = Vec::new();
                    assert(texts(self.finished@) =~= Seq::empty());
                    assert(texts(self.pending@) =~= Seq::empty());
                }
                self.next_query()
            },
        }
    }
}

} // verus!
