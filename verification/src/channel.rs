//! The links to the tasks that run concurrently: a progress channel for each
//! download, and the signals that wake the background activities.
//!
//! The two ends of a channel are used by different tasks. What one task has
//! given the channel is known to it, and so is how far another has read. Both
//! are related by the channel's course: all that the channel is ever given.

use crate::error::Error;
use crate::progress::{finish_result, is_finish_of, DownloadProgress, ProgressView};
use std::sync::Arc;
use tokio::sync::watch;
use tokio::sync::Notify;
use vstd::prelude::*;

verus! {

/// `tokio::sync::watch::Sender`, the sending half of a channel that keeps the
/// latest value. Opaque.
#[verifier::external_type_specification]
#[verifier::external_body]
#[verifier::reject_recursive_types(T)]
pub struct ExWatchSender<T>(watch::Sender<T>);

/// `tokio::sync::watch::Receiver`, the receiving half of such a channel.
/// Opaque.
#[verifier::external_type_specification]
#[verifier::external_body]
#[verifier::reject_recursive_types(T)]
pub struct ExWatchReceiver<T>(watch::Receiver<T>);

/// `tokio::sync::Notify`, which wakes waiting tasks. Opaque.
#[verifier::external_type_specification]
#[verifier::external_body]
pub struct ExNotify(Notify);

/// Whether the two halves belong to one channel.
pub uninterp spec fn linked(
    tx: watch::Sender<DownloadProgress>,
    rx: watch::Receiver<DownloadProgress>,
) -> bool;

/// What the channel was given through this half so far, oldest first, beginning
/// with the report that it was made with.
pub uninterp spec fn handed(tx: watch::Sender<DownloadProgress>) -> Seq<ProgressView>;

/// All that the channel of this half is ever given, oldest first. It belongs to
/// the channel as a whole: reports that are yet to come are part of it.
pub uninterp spec fn course(rx: watch::Receiver<DownloadProgress>) -> Seq<ProgressView>;

/// Which report of the channel's course this half has marked as seen.
pub uninterp spec fn marked(rx: watch::Receiver<DownloadProgress>) -> nat;

/// How often this half has taken in the channel's current report.
pub uninterp spec fn looks(rx: watch::Receiver<DownloadProgress>) -> nat;

/// Whether this half has found its channel closed.
pub uninterp spec fn sealed(rx: watch::Receiver<DownloadProgress>) -> bool;

/// Calls `tokio::sync::watch::channel`, which makes a channel that holds `init`
/// and returns its two halves. Claimed: the halves belong to one channel, which
/// was given `init` and nothing else so far; `init` counts as seen; and all that
/// the channel is ever given is about the download of `init`. The last holds
/// because [`watch_send`] is the only other way in, and requires it; the library
/// never copies a sending half nor lets one out of its hands.
#[verifier::external_body]
fn watch_channel(init: DownloadProgress) -> (halves: (
    watch::Sender<DownloadProgress>,
    watch::Receiver<DownloadProgress>,
))
    ensures
        linked(halves.0, halves.1),
        handed(halves.0) == seq![init@],
        marked(halves.1) == 0,
        looks(halves.1) == 0,
        !sealed(halves.1),
        forall|rx: watch::Receiver<DownloadProgress>| #[trigger]
            linked(halves.0, rx) ==> handed(halves.0).is_prefix_of(course(rx)),
        forall|i: int|
            0 <= i < course(halves.1).len() ==> (#[trigger] course(halves.1)[i]).gid == init@.gid,
{
    watch::channel(init)
}

/// Calls `tokio::sync::watch::Sender::send`, which makes `progress` the
/// channel's value and wakes its receivers. Where every receiver is gone the
/// value is handed back and dropped here; nobody is left to miss it. Claimed:
/// the channel was given `progress` after all that it was given before, and the
/// half still belongs to the same channel.
#[verifier::external_body]
fn watch_send(tx: &mut watch::Sender<DownloadProgress>, progress: DownloadProgress)
    requires
        handed(*old(tx)).len() > 0,
        progress@.gid == handed(*old(tx))[0].gid,
    ensures
        handed(*final(tx)) == handed(*old(tx)).push(progress@),
        forall|rx: watch::Receiver<DownloadProgress>| #[trigger]
            linked(*final(tx), rx) == linked(*old(tx), rx),
        forall|rx: watch::Receiver<DownloadProgress>| #[trigger]
            linked(*final(tx), rx) ==> handed(*final(tx)).is_prefix_of(course(rx)),
{
    let _ = tx.send(progress);
}

/// Drops the sending half, which by `Drop for tokio::sync::watch::Sender` closes
/// the channel, as it is the only one, and returns the channel's record: what it
/// was given through this half. Claimed: that is all that it is ever given.
#[verifier::external_body]
fn watch_close(tx: watch::Sender<DownloadProgress>) -> (record: Ghost<Seq<ProgressView>>)
    ensures
        record@ == handed(tx),
        forall|rx: watch::Receiver<DownloadProgress>| #[trigger]
            linked(tx, rx) ==> course(rx) == record@,
{
    let record = Ghost(handed(tx));
    drop(tx);
    record
}

/// Calls `tokio::sync::watch::Receiver::is_closed`, which tells whether the
/// sending half is gone. Claimed: a channel that was found closed once is found
/// closed again, and asking marks nothing as seen. When a channel is found
/// closed first depends on the sending task.
#[verifier::external_body]
fn watch_is_closed(rx: &mut watch::Receiver<DownloadProgress>) -> (closed: bool)
    ensures
        closed == sealed(*final(rx)),
        sealed(*old(rx)) ==> closed,
        course(*final(rx)) == course(*old(rx)),
        marked(*final(rx)) == marked(*old(rx)),
        looks(*final(rx)) == looks(*old(rx)),
        forall|tx: watch::Sender<DownloadProgress>| #[trigger]
            linked(tx, *final(rx)) == linked(tx, *old(rx)),
{
    rx.is_closed()
}

/// Calls `tokio::sync::watch::Receiver::borrow` and copies the channel's
/// current value. Claimed: it is of the channel's course, and no older than what
/// this half has marked as seen; once the channel was found closed it is the
/// last one. Which value it is before that depends on what the sending task has
/// done by then.
#[verifier::external_body]
fn watch_borrow(rx: &watch::Receiver<DownloadProgress>) -> (latest: DownloadProgress)
    ensures
        course(*rx).skip(marked(*rx) as int).contains(latest@),
        sealed(*rx) ==> latest@ == course(*rx).last(),
{
    rx.borrow().clone()
}

/// Calls `tokio::sync::watch::Receiver::borrow_and_update`, which also marks
/// the value as seen, copies the channel's current value, and asks by
/// `tokio::sync::watch::Ref::has_changed` whether it was unseen before. Claimed:
/// the half has looked once more; the value is the one that is marked now, which
/// is no older than the one that was marked before, and another one exactly if
/// it was unseen; once the channel was found closed it is the last one. Which
/// value it is before that depends on what the sending task has done by then.
#[verifier::external_body]
fn watch_borrow_and_update(rx: &mut watch::Receiver<DownloadProgress>) -> (found: (
    DownloadProgress,
    bool,
))
    ensures
        marked(*old(rx)) <= marked(*final(rx)) < course(*old(rx)).len(),
        found.0@ == course(*old(rx))[marked(*final(rx)) as int],
        found.1 == (marked(*final(rx)) != marked(*old(rx))),
        looks(*final(rx)) == looks(*old(rx)) + 1,
        sealed(*final(rx)) == sealed(*old(rx)),
        sealed(*final(rx)) ==> marked(*final(rx)) + 1 == course(*old(rx)).len(),
        course(*final(rx)) == course(*old(rx)),
        forall|tx: watch::Sender<DownloadProgress>| #[trigger]
            linked(tx, *final(rx)) == linked(tx, *old(rx)),
{
    let latest = rx.borrow_and_update();
    (latest.clone(), latest.has_changed())
}

/// One channel, as the sending side knows it.
pub struct Line {
    /// What the channel was given so far, oldest first.
    pub told: Seq<ProgressView>,
    /// The sending half as it was when the channel was made. It stands for the
    /// channel.
    pub channel: watch::Sender<DownloadProgress>,
}

impl Line {
    /// The line of a channel that was just made for the download `gid`.
    pub open spec fn fresh(gid: Seq<char>, channel: watch::Sender<DownloadProgress>) -> Line {
        Line { told: seq![ProgressView::pending(gid)], channel }
    }

    /// The line after `report`.
    pub open spec fn after(self, report: ProgressView) -> Line {
        Line { told: self.told.push(report), ..self }
    }

    /// Whether `rx` receives what the channel is given.
    pub open spec fn reaches(self, rx: watch::Receiver<DownloadProgress>) -> bool {
        linked(self.channel, rx)
    }

    /// Whether the channel's receivers get what it was given before anything
    /// else.
    pub open spec fn is_kept(self) -> bool {
        forall|rx: watch::Receiver<DownloadProgress>| #[trigger]
            self.reaches(rx) ==> self.told.is_prefix_of(course(rx))
    }

    /// Whether what the channel was given is all that its receivers get.
    pub open spec fn is_complete(self) -> bool {
        forall|rx: watch::Receiver<DownloadProgress>| #[trigger]
            self.reaches(rx) ==> course(rx) == self.told
    }
}

/// The sending half of a download's progress channel.
pub struct ProgressSender {
    gid: String,
    tx: watch::Sender<DownloadProgress>,
    origin: Ghost<watch::Sender<DownloadProgress>>,
}

impl ProgressSender {
    /// The download that the channel reports on.
    pub closed spec fn gid_text(self) -> Seq<char> {
        self.gid@
    }

    /// The channel, and everything that it was given.
    pub closed spec fn line(self) -> Line {
        Line { told: handed(self.tx), channel: self.origin@ }
    }

    /// The channel is for reports on this download, and whoever receives from it
    /// gets what it was given.
    pub closed spec fn wf(self) -> bool {
        &&& handed(self.tx).len() > 0
        &&& handed(self.tx)[0].gid == self.gid@
        &&& forall|rx: watch::Receiver<DownloadProgress>| #[trigger]
            linked(self.tx, rx) == linked(self.origin@, rx)
        &&& forall|rx: watch::Receiver<DownloadProgress>| #[trigger]
            linked(self.origin@, rx) ==> linked(self.tx, rx) && handed(self.tx).is_prefix_of(
                course(rx),
            )
    }

    /// What the channel was given comes first in what its receivers get.
    pub proof fn lemma_is_kept(self)
        requires
            self.wf(),
        ensures
            self.line().is_kept(),
    {
    }

    /// The download that the channel reports on.
    pub fn gid(&self) -> (gid: &String)
        ensures
            gid@ == self.gid_text(),
    {
        &self.gid
    }

    /// Gives the channel its next report on its download.
    pub fn send(&mut self, progress: DownloadProgress)
        requires
            old(self).wf(),
            progress@.gid == old(self).gid_text(),
        ensures
            final(self).wf(),
            final(self).gid_text() == old(self).gid_text(),
            final(self).line() == old(self).line().after(progress@),
    {
        watch_send(&mut self.tx, progress);
    }

    /// Closes the channel and returns its record: all that its receivers get.
    pub fn close(self) -> (record: Ghost<Line>)
        requires
            self.wf(),
        ensures
            record@ == self.line(),
            record@.is_complete(),
    {
        let Ghost(told) = watch_close(self.tx);
        Ghost(Line { told, channel: self.origin@ })
    }
}

/// What a caller that waits on a download's channel does next.
pub enum WaitStep {
    /// Wait until the channel has changed, and ask again.
    Await,
    /// The wait is over.
    Done(Result<DownloadProgress, Error>),
}

/// What follows for a caller that waits for the next report, from the latest
/// one, whether it was `unseen`, and whether the channel was found `closed`
/// before: a report that was not seen yet is the next one, and where there is
/// none and none will come, the channel is closed.
pub fn changed_step(latest: DownloadProgress, unseen: bool, closed: bool) -> (step: WaitStep)
    ensures
        unseen ==> step == WaitStep::Done(Ok(latest)),
        !unseen && closed ==> step == WaitStep::Done(Err(Error::ChannelClosed)),
        !unseen && !closed ==> step is Await,
{
    if unseen {
        WaitStep::Done(Ok(latest))
    } else if closed {
        WaitStep::Done(Err(Error::ChannelClosed))
    } else {
        WaitStep::Await
    }
}

/// What follows for a caller that waits for the end of a download, from the
/// latest report and whether the channel was found `closed` before: the wait
/// ends with the last report, or with [`Error::ChannelClosed`] where the channel
/// was closed without one.
pub fn wait_step(latest: DownloadProgress, closed: bool) -> (step: WaitStep)
    ensures
        is_wait_step(step, latest, closed),
{
    if latest.is_finished() {
        WaitStep::Done(finish_result(latest))
    } else if closed {
        WaitStep::Done(Err(Error::ChannelClosed))
    } else {
        WaitStep::Await
    }
}

/// `step` is what follows from the latest report on a download.
pub open spec fn is_wait_step(step: WaitStep, latest: DownloadProgress, closed: bool) -> bool {
    if latest@.finished() {
        step matches WaitStep::Done(result) && is_finish_of(result, latest)
    } else if closed {
        step == WaitStep::Done(Err(Error::ChannelClosed))
    } else {
        step is Await
    }
}

/// The contents of a [`DownloadHandle`].
pub struct HandleView {
    /// The download that the handle is for.
    pub gid: Seq<char>,
    /// All the reports that the download's channel is ever given.
    pub course: Seq<ProgressView>,
    /// Which of them the handle has seen last.
    pub marked: nat,
    /// How often the handle has taken in the report that was the latest.
    pub looks: nat,
    /// Whether the handle has found the channel closed.
    pub sealed: bool,
}

impl HandleView {
    /// Every report is about the handle's download, and the handle has seen one.
    pub open spec fn valid(self) -> bool {
        &&& self.marked < self.course.len()
        &&& forall|i: int| 0 <= i < self.course.len() ==> (#[trigger] self.course[i]).gid == self.gid
    }

    /// The report that the handle has seen last.
    pub open spec fn seen(self) -> ProgressView {
        self.course[self.marked as int]
    }

    /// `next` is this handle after it has looked at the channel once and taken
    /// in the report that was the latest then. Reports never go back, and on a
    /// channel that was found closed the latest report is the last one.
    pub open spec fn reads(self, next: HandleView) -> bool {
        &&& next == (HandleView {
            marked: next.marked,
            looks: self.looks + 1,
            sealed: next.sealed,
            ..self
        })
        &&& self.marked <= next.marked < self.course.len()
        &&& self.sealed ==> next.sealed
        &&& next.sealed ==> next.marked + 1 == self.course.len()
    }

    /// Whether a handle that has become `next` has taken in a report that it had
    /// not seen.
    pub open spec fn has_news(self, next: HandleView) -> bool {
        next.marked != self.marked
    }

    /// `report` may be what the handle shows: it is no older than the one that
    /// was seen last, and on a channel that was found closed it is the last one.
    pub open spec fn may_show(self, report: ProgressView) -> bool {
        &&& self.course.skip(self.marked as int).contains(report)
        &&& self.sealed ==> report == self.course.last()
    }
}

/// `step` is what follows for a caller that waits for the next report, when the
/// handle has become `next` by taking in the latest one.
pub open spec fn is_changed_step(step: WaitStep, handle: HandleView, next: HandleView) -> bool {
    if handle.has_news(next) {
        step matches WaitStep::Done(Ok(latest)) && latest@ == next.seen()
    } else if next.sealed {
        step == WaitStep::Done(Err(Error::ChannelClosed))
    } else {
        step is Await
    }
}

/// Handle to a single download task. Provides its progress.
pub struct DownloadHandle {
    gid: String,
    rx: watch::Receiver<DownloadProgress>,
}

impl View for DownloadHandle {
    type V = HandleView;

    open spec fn view(&self) -> HandleView {
        HandleView {
            gid: self.gid_text(),
            course: course(self.channel()),
            marked: marked(self.channel()),
            looks: looks(self.channel()),
            sealed: sealed(self.channel()),
        }
    }
}

impl DownloadHandle {
    /// The download that the handle is for.
    pub closed spec fn gid_text(self) -> Seq<char> {
        self.gid@
    }

    /// The receiving half of the download's progress channel.
    pub closed spec fn channel(self) -> watch::Receiver<DownloadProgress> {
        self.rx
    }

    /// Every report in the channel is about the handle's download.
    pub open spec fn wf(self) -> bool {
        self@.valid()
    }

    /// Whether both handles receive from the same channel.
    pub open spec fn same_channel(self, other: DownloadHandle) -> bool {
        forall|tx: watch::Sender<DownloadProgress>| #[trigger]
            linked(tx, self.channel()) == linked(tx, other.channel())
    }

    /// The aria2 GID for this download.
    pub fn gid(&self) -> (gid: &str)
        ensures
            gid@ == self@.gid,
    {
        self.gid.as_str()
    }

    /// Snapshot of current progress: the report that the channel holds now. It
    /// does not count as seen.
    pub fn progress(&self) -> (latest: DownloadProgress)
        requires
            self.wf(),
        ensures
            latest@.gid == self@.gid,
            self@.may_show(latest@),
    {
        watch_borrow(&self.rx)
    }

    /// The channel itself, for a task that waits on a copy of it.
    pub fn receiver(&self) -> (rx: &watch::Receiver<DownloadProgress>)
        ensures
            *rx == self.channel(),
    {
        &self.rx
    }

    /// What a caller that waits for the next report does next: look at the
    /// channel, take the latest report if it is unseen, give up with
    /// [`Error::ChannelClosed`] if there is none and none will come, or go on
    /// waiting.
    pub fn changed(&mut self) -> (step: WaitStep)
        requires
            old(self).wf(),
        ensures
            final(self).wf(),
            final(self).same_channel(*old(self)),
            old(self)@.reads(final(self)@),
            is_changed_step(step, old(self)@, final(self)@),
    {
        let closed = watch_is_closed(&mut self.rx);
        let (latest, unseen) = watch_borrow_and_update(&mut self.rx);
        changed_step(latest, unseen, closed)
    }

    /// What a caller that waits for the end of the download does next, from the
    /// latest report, which counts as seen.
    pub fn wait(&mut self) -> (step: WaitStep)
        requires
            old(self).wf(),
        ensures
            final(self).wf(),
            final(self).same_channel(*old(self)),
            old(self)@.reads(final(self)@),
            exists|latest: DownloadProgress|
                latest@ == final(self)@.seen() && #[trigger] is_wait_step(
                    step,
                    latest,
                    final(self)@.sealed,
                ),
    {
        let closed = watch_is_closed(&mut self.rx);
        let (latest, _) = watch_borrow_and_update(&mut self.rx);
        wait_step(latest, closed)
    }
}

/// `handle` has just been made, for the download of `line`: the report that it
/// has seen is the pending one.
pub open spec fn is_handle_on(handle: DownloadHandle, gid: Seq<char>, line: Line) -> bool {
    &&& handle.wf()
    &&& handle@.gid == gid
    &&& line.reaches(handle.channel())
    &&& handle@.marked == 0
    &&& handle@.looks == 0
    &&& handle@.seen() == ProgressView::pending(gid)
    &&& !handle@.sealed
}

/// Opens the progress channel of the download `gid`, which starts out pending.
pub fn open_channel(gid: String) -> (ends: (ProgressSender, DownloadHandle))
    ensures
        ends.0.wf(),
        ends.0.gid_text() == gid@,
        ends.0.line() == Line::fresh(gid@, ends.0.line().channel),
        is_handle_on(ends.1, gid@, ends.0.line()),
{
    let init = DownloadProgress::pending(gid.clone());
    let (tx, rx) = watch_channel(init);
    let origin = Ghost(tx);
    (ProgressSender { gid: gid.clone(), tx, origin }, DownloadHandle { gid, rx })
}

/// How often tasks waiting for this signal were woken one at a time.
pub uninterp spec fn singles(notify: Notify) -> nat;

/// How often all tasks waiting for this signal were woken at once.
pub uninterp spec fn broadcasts(notify: Notify) -> nat;

/// Whether both are the same signal.
pub uninterp spec fn same_signal(notify: Notify, other: Notify) -> bool;

/// `tokio::sync::Notify::new` makes a signal without a stored permit. Claimed:
/// it was never raised.
pub assume_specification[ tokio::sync::Notify::new ]() -> (notify: Notify)
    ensures
        singles(notify) == 0,
        broadcasts(notify) == 0,
        same_signal(notify, notify),
;

/// Calls `tokio::sync::Notify::notify_one`, which wakes one waiting task, or
/// stores a permit for the next one to wait. Claimed: the signal was raised once
/// more in this way, and is still the same.
#[verifier::external_body]
fn notify_one(notify: &mut Arc<Notify>)
    ensures
        singles(**final(notify)) == singles(**old(notify)) + 1,
        broadcasts(**final(notify)) == broadcasts(**old(notify)),
        forall|other: Notify| #[trigger]
            same_signal(other, **final(notify)) == same_signal(other, **old(notify)),
{
    notify.notify_one();
}

/// Calls `tokio::sync::Notify::notify_waiters`, which wakes every waiting task
/// and stores no permit. Claimed: the signal was raised once more in this way,
/// and is still the same.
#[verifier::external_body]
fn notify_waiters(notify: &mut Arc<Notify>)
    ensures
        singles(**final(notify)) == singles(**old(notify)),
        broadcasts(**final(notify)) == broadcasts(**old(notify)) + 1,
        forall|other: Notify| #[trigger]
            same_signal(other, **final(notify)) == same_signal(other, **old(notify)),
{
    notify.notify_waiters();
}

/// What tasks wait on, how often it was raised, and in which way.
pub struct SignalView {
    /// The signal as it was when it was made. It stands for the signal.
    pub origin: Notify,
    /// How often one task was woken.
    pub singles: nat,
    /// How often all waiting tasks were.
    pub broadcasts: nat,
}

impl SignalView {
    /// The signal after one task was woken.
    pub open spec fn woke_one(self) -> SignalView {
        SignalView { singles: self.singles + 1, ..self }
    }

    /// The signal after all waiting tasks were woken.
    pub open spec fn woke_all(self) -> SignalView {
        SignalView { broadcasts: self.broadcasts + 1, ..self }
    }
}

/// `notify` is the signal of `view`, raised as often.
pub open spec fn is_signal(notify: Notify, view: SignalView) -> bool {
    &&& same_signal(view.origin, notify)
    &&& singles(notify) == view.singles
    &&& broadcasts(notify) == view.broadcasts
}

/// A signal that wakes waiting tasks.
pub struct Signal {
    notify: Arc<Notify>,
    origin: Ghost<Notify>,
}

impl View for Signal {
    type V = SignalView;

    closed spec fn view(&self) -> SignalView {
        SignalView {
            origin: self.origin@,
            singles: singles(*self.notify),
            broadcasts: broadcasts(*self.notify),
        }
    }
}

impl Signal {
    /// It is the signal that it was made as.
    pub closed spec fn wf(self) -> bool {
        same_signal(self.origin@, *self.notify)
    }

    /// A signal that was never raised.
    pub fn new() -> (signal: Signal)
        ensures
            signal.wf(),
            signal@.singles == 0,
            signal@.broadcasts == 0,
    {
        let notify = Notify::new();
        let origin = Ghost(notify);
        Signal { notify: Arc::new(notify), origin }
    }

    /// Wakes one waiting task, or the next one to wait.
    pub fn wake_one(&mut self)
        requires
            old(self).wf(),
        ensures
            final(self).wf(),
            final(self)@ == old(self)@.woke_one(),
    {
        notify_one(&mut self.notify);
    }

    /// Wakes every task that is waiting.
    pub fn wake_all(&mut self)
        requires
            old(self).wf(),
        ensures
            final(self).wf(),
            final(self)@ == old(self)@.woke_all(),
    {
        notify_waiters(&mut self.notify);
    }

    /// The signal itself, for a task that waits for it.
    pub fn notify(&self) -> (notify: &Arc<Notify>)
        requires
            self.wf(),
        ensures
            is_signal(**notify, self@),
    {
        &self.notify
    }
}

} // verus!
