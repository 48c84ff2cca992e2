//! What holds of every single operation: what it returns, what it changes, and
//! what it leaves as it was.
//!
//! Each function here proves one law about what executable functions do. A
//! premise `call_ensures(f, args, result)` says that `f`, called with `args`,
//! returned `result`; for an argument that `f` may change, `old` is what it was
//! before the call and `final` what it was after.

use crate::aria2::{Status, TaskStatus};
use crate::channel::{
    broadcasts, course, linked, open_channel, same_signal, singles, DownloadHandle, HandleView,
    Line, ProgressSender, Signal, SignalView, WaitStep,
};
use crate::downloader::{Aria2Downloader, ChildState, DownloaderView, StartStep};
use crate::error::Error;
use crate::idle::{IdleEvent, IdleStep, IdleWatcher};
use crate::poller::{PollStep, Poller};
use crate::progress::{DownloadProgress, DownloadStatus, ProgressView};
use crate::registry::{TaskTable, TaskTableView};
use crate::request_laws::{is_address, is_command_line, writes};
use crate::settings::Settings;
use crate::text::texts;
use std::sync::Arc;
use tokio::sync::watch;
use tokio::sync::Notify;
use vstd::prelude::*;

verus! {

// Reports and lines.

/// `report` says that `gid` is pending, and nothing else.
pub open spec fn says_pending(report: ProgressView, gid: Seq<char>) -> bool {
    &&& report.gid == gid
    &&& report.status == DownloadStatus::Pending
    &&& report.total_length == 0
    &&& report.completed_length == 0
    &&& report.download_speed == 0
    &&& report.upload_speed == 0
    &&& report.error_message is None
}

/// `report` says that `gid` has failed with `message`, and nothing else.
pub open spec fn says_failed(report: ProgressView, gid: Seq<char>, message: Seq<char>) -> bool {
    &&& report.gid == gid
    &&& report.status == DownloadStatus::Error
    &&& report.total_length == 0
    &&& report.completed_length == 0
    &&& report.download_speed == 0
    &&& report.upload_speed == 0
    &&& report.error_message == Some(message)
}

/// `report` says of `gid` what aria2 has answered.
pub open spec fn says_as_answered(report: ProgressView, gid: Seq<char>, st: Status) -> bool {
    &&& report.gid == gid
    &&& report.status == DownloadStatus::Pending <==> st.status is None
    &&& report.status == DownloadStatus::Active <==> st.status == Some(TaskStatus::Active)
    &&& report.status == DownloadStatus::Waiting <==> st.status == Some(TaskStatus::Waiting)
    &&& report.status == DownloadStatus::Paused <==> st.status == Some(TaskStatus::Paused)
    &&& report.status == DownloadStatus::Complete <==> st.status == Some(TaskStatus::Complete)
    &&& report.status == DownloadStatus::Error <==> st.status == Some(TaskStatus::Error)
    &&& report.status == DownloadStatus::Removed <==> st.status == Some(TaskStatus::Removed)
    &&& st.total_length matches Some(n) ==> report.total_length == n
    &&& st.total_length is None ==> report.total_length == 0
    &&& st.completed_length matches Some(n) ==> report.completed_length == n
    &&& st.completed_length is None ==> report.completed_length == 0
    &&& st.download_speed matches Some(n) ==> report.download_speed == n
    &&& st.download_speed is None ==> report.download_speed == 0
    &&& st.upload_speed matches Some(n) ==> report.upload_speed == n
    &&& st.upload_speed is None ==> report.upload_speed == 0
    &&& st.error_message matches Some(m) ==> report.error_message == Some(m@)
    &&& st.error_message is None ==> report.error_message is None
}

/// `report` says of `gid` what has come of a status query: the answer, or that
/// contact was lost.
pub open spec fn says_what_came(
    report: ProgressView,
    gid: Seq<char>,
    reply: Result<Status, String>,
) -> bool {
    match reply {
        Ok(st) => says_as_answered(report, gid, st),
        Err(detail) => says_failed(report, gid, "lost contact with aria2c: "@ + detail@),
    }
}

/// `after` is the channel of `before`, given exactly one report more.
pub open spec fn one_more(before: Line, after: Line) -> bool {
    &&& after.channel == before.channel
    &&& after.told.len() == before.told.len() + 1
    &&& forall|i: int| 0 <= i < before.told.len() ==> (#[trigger] after.told[i]) == before.told[i]
}

/// The status query for a download has ended it: aria2 says so, or it has
/// failed.
pub open spec fn ends_it(reply: Result<Status, String>) -> bool {
    match reply {
        Ok(st) => st.status == Some(TaskStatus::Complete) || st.status == Some(TaskStatus::Error)
            || st.status == Some(TaskStatus::Removed),
        Err(_) => true,
    }
}

// The task table.

/// Whether any download is tracked.
pub open spec fn tracks_any(t: TaskTableView) -> bool {
    exists|gid: Seq<char>| #[trigger] t.live.contains_key(gid)
}

/// Both tables say the same of `gid`.
pub open spec fn same_for(before: TaskTableView, after: TaskTableView, gid: Seq<char>) -> bool {
    &&& after.live.contains_key(gid) <==> before.live.contains_key(gid)
    &&& before.live.contains_key(gid) ==> after.live[gid] == before.live[gid]
    &&& same_closed(before, after, gid)
}

/// Both tables have the same closed channel for `gid`, or none.
pub open spec fn same_closed(before: TaskTableView, after: TaskTableView, gid: Seq<char>) -> bool {
    &&& after.closed.contains_key(gid) <==> before.closed.contains_key(gid)
    &&& before.closed.contains_key(gid) ==> after.closed[gid] == before.closed[gid]
}

/// From `before` to `after` every tracked download was told that it failed with
/// `message`, once and as its last report, and nothing is tracked any more.
pub open spec fn all_given_up(
    before: TaskTableView,
    after: TaskTableView,
    message: Seq<char>,
) -> bool {
    &&& !tracks_any(after)
    &&& forall|gid: Seq<char>| #[trigger]
        before.live.contains_key(gid) ==> {
            &&& after.closed.contains_key(gid)
            &&& one_more(before.live[gid], after.closed[gid])
            &&& says_failed(after.closed[gid].told.last(), gid, message)
        }
    &&& forall|gid: Seq<char>|
        !before.live.contains_key(gid) ==> #[trigger] same_closed(before, after, gid)
}

/// From `before` to `after` `gid` has come to be tracked on a new channel, which
/// was told that it is pending; a channel that it had is closed as it was, and
/// no other download is touched.
pub open spec fn taken_in(before: TaskTableView, after: TaskTableView, gid: Seq<char>) -> bool {
    &&& after.live.contains_key(gid)
    &&& after.live[gid].told.len() == 1
    &&& says_pending(after.live[gid].told[0], gid)
    &&& before.live.contains_key(gid) ==> after.closed.contains_key(gid) && after.closed[gid]
        == before.live[gid]
    &&& !before.live.contains_key(gid) ==> same_closed(before, after, gid)
    &&& forall|other: Seq<char>| other != gid ==> #[trigger] same_for(before, after, other)
}

/// From `before` to `after` `gid` was told `report`, if it is tracked, and no
/// other download anything.
pub open spec fn informed(
    before: TaskTableView,
    after: TaskTableView,
    gid: Seq<char>,
    report: ProgressView,
) -> bool {
    &&& before.live.contains_key(gid) ==> {
        &&& after.live.contains_key(gid)
        &&& one_more(before.live[gid], after.live[gid])
        &&& after.live[gid].told.last() == report
        &&& same_closed(before, after, gid)
    }
    &&& !before.live.contains_key(gid) ==> same_for(before, after, gid)
    &&& forall|other: Seq<char>| other != gid ==> #[trigger] same_for(before, after, other)
}

/// Whether `list` holds `gid`.
pub open spec fn lists(list: Seq<Seq<char>>, gid: Seq<char>) -> bool {
    exists|i: int| 0 <= i < list.len() && #[trigger] list[i] == gid
}

/// From `before` to `after` exactly those in `gids` are no longer tracked; their
/// channels are closed as they were, and no other download is touched.
pub open spec fn let_go(
    before: TaskTableView,
    after: TaskTableView,
    gids: Seq<Seq<char>>,
) -> bool {
    forall|gid: Seq<char>|
        {
            &&& !(before.live.contains_key(gid) && lists(gids, gid)) ==> #[trigger] same_for(
                before,
                after,
                gid,
            )
            &&& before.live.contains_key(gid) && lists(gids, gid) ==> {
                &&& !after.live.contains_key(gid)
                &&& after.closed.contains_key(gid)
                &&& after.closed[gid] == before.live[gid]
            }
        }
}

proof fn lemma_lists(list: Seq<Seq<char>>)
    ensures
        forall|gid: Seq<char>| #[trigger] lists(list, gid) <==> list.to_set().contains(gid),
{
    assert forall|gid: Seq<char>| #[trigger] lists(list, gid) <==> list.to_set().contains(gid) by {
        assert(list.to_set().contains(gid) <==> list.contains(gid));
    }
}

proof fn lemma_idle(t: TaskTableView)
    ensures
        t.is_idle() <==> !tracks_any(t),
{
    if !t.is_idle() {
        let gid = choose|gid: Seq<char>| t.tracks(gid);
        assert(t.live.contains_key(gid));
    }
    if t.is_idle() && tracks_any(t) {
        let gid = choose|gid: Seq<char>| #[trigger] t.live.contains_key(gid);
        assert(t.tracks(gid));
    }
}

/// A new table tracks nothing and never did.
pub proof fn law_table_starts_empty(table: TaskTable, gid: Seq<char>)
    requires
        call_ensures(TaskTable::new, (), table),
    ensures
        !table@.live.contains_key(gid),
        !table@.closed.contains_key(gid),
{
}

/// What a table tracks is listed, each download once; it is empty exactly if
/// that is none.
pub proof fn law_table_lists_what_it_tracks(table: &TaskTable, gids: Vec<String>, empty: bool)
    requires
        call_ensures(TaskTable::gids, (table,), gids),
        call_ensures(TaskTable::is_empty, (table,), empty),
    ensures
        forall|gid: Seq<char>| #[trigger]
            table@.live.contains_key(gid) <==> lists(texts(gids@), gid),
        forall|i: int, j: int|
            0 <= i < j < gids@.len() ==> (#[trigger] gids@[i])@ != (#[trigger] gids@[j])@,
        empty <==> !tracks_any(table@),
{
    lemma_lists(texts(gids@));
    lemma_idle(table@);
    lemma_distinct_texts(gids@);
}

proof fn lemma_distinct_texts(list: Seq<String>)
    requires
        texts(list).no_duplicates(),
    ensures
        forall|i: int, j: int|
            0 <= i < j < list.len() ==> (#[trigger] list[i])@ != (#[trigger] list[j])@,
{
    assert forall|i: int, j: int| 0 <= i < j < list.len() implies (#[trigger] list[i])@ != (
    #[trigger] list[j])@ by {
        assert(texts(list)[i] == list[i]@);
        assert(texts(list)[j] == list[j]@);
    }
}

/// Opening tracks the download on a new channel, and touches no other.
pub proof fn law_table_open(table: &mut TaskTable, gid: String, handle: DownloadHandle)
    requires
        call_ensures(TaskTable::open, (table, gid), handle),
    ensures
        taken_in(old(table)@, final(table)@, gid@),
        is_new_handle(handle, gid@, final(table)@.live[gid@]),
{
}

/// Publishing tells the download, and touches no other.
pub proof fn law_table_publish(table: &mut TaskTable, gid: &String, progress: DownloadProgress)
    requires
        call_ensures(TaskTable::publish, (table, gid, progress), ()),
    ensures
        informed(old(table)@, final(table)@, gid@, progress@),
{
}

/// Removing lets go of exactly what is listed.
pub proof fn law_table_remove(table: &mut TaskTable, gids: &Vec<String>)
    requires
        call_ensures(TaskTable::remove, (table, gids), ()),
    ensures
        let_go(old(table)@, final(table)@, texts(gids@)),
{
    lemma_lists(texts(gids@));
}

/// Failing all tells each download once, and lets go of all.
pub proof fn law_table_fail_all(table: &mut TaskTable, message: &str)
    requires
        call_ensures(TaskTable::fail_all, (table, message), ()),
    ensures
        all_given_up(old(table)@, final(table)@, message@),
{
}

// Channels and handles.

/// `handle` is for `gid`, receives from the channel of `line`, and has seen that
/// the download is pending and nothing else.
pub open spec fn is_new_handle(handle: DownloadHandle, gid: Seq<char>, line: Line) -> bool {
    &&& handle@.gid == gid
    &&& linked(line.channel, handle.channel())
    &&& handle@.marked == 0
    &&& handle@.course.len() > 0
    &&& says_pending(handle@.course[0], gid)
    &&& forall|i: int| 0 <= i < handle@.course.len() ==> (#[trigger] handle@.course[i]).gid == gid
    &&& !handle@.sealed
}

/// A new channel has two ends of one download, which is pending.
pub proof fn law_new_channel(gid: String, ends: (ProgressSender, DownloadHandle), name: &String)
    requires
        call_ensures(open_channel, (gid,), ends),
        call_ensures(ProgressSender::gid, (&ends.0,), name),
    ensures
        name@ == gid@,
        ends.0.line().told.len() == 1,
        says_pending(ends.0.line().told[0], gid@),
        is_new_handle(ends.1, gid@, ends.0.line()),
{
}

/// Sending gives the channel exactly that report, behind all others.
pub proof fn law_sending_adds_a_report(sender: &mut ProgressSender, progress: DownloadProgress)
    requires
        call_ensures(ProgressSender::send, (sender, progress), ()),
    ensures
        one_more(old(sender).line(), final(sender).line()),
        final(sender).line().told.last() == progress@,
        final(sender).gid_text() == old(sender).gid_text(),
{
}

/// After closing, the handle's channel has got what was sent, and gets nothing
/// more.
pub proof fn law_closing_completes_a_channel(
    sender: ProgressSender,
    record: Ghost<Line>,
    rx: watch::Receiver<DownloadProgress>,
)
    requires
        call_ensures(ProgressSender::close, (sender,), record),
        linked(sender.line().channel, rx),
    ensures
        record@ == sender.line(),
        course(rx).len() == sender.line().told.len(),
        forall|i: int| 0 <= i < course(rx).len() ==> (#[trigger] course(rx)[i])
            == sender.line().told[i],
{
    assert(record@.reaches(rx));
}

/// What tracked downloads were told is what comes first on their channels, and
/// what downloads were told that are no longer tracked is all that came.
pub proof fn law_told_is_what_comes<P>(
    downloader: Aria2Downloader<P>,
    gid: Seq<char>,
    rx: watch::Receiver<DownloadProgress>,
    i: int,
)
    requires
        downloader.wf(),
    ensures
        downloader@.tasks.live.contains_key(gid) && linked(
            downloader@.tasks.live[gid].channel,
            rx,
        ) && 0 <= i < downloader@.tasks.live[gid].told.len() ==> i < course(rx).len()
            && course(rx)[i] == downloader@.tasks.live[gid].told[i],
        downloader@.tasks.closed.contains_key(gid) && linked(
            downloader@.tasks.closed[gid].channel,
            rx,
        ) ==> course(rx) == downloader@.tasks.closed[gid].told,
{
    let t = downloader@.tasks;
    if t.live.contains_key(gid) && linked(t.live[gid].channel, rx) {
        assert(t.live[gid].reaches(rx));
        assert(t.live[gid].told.is_prefix_of(course(rx)));
    }
    if t.closed.contains_key(gid) && linked(t.closed[gid].channel, rx) {
        assert(t.closed[gid].reaches(rx));
    }
}

/// `after` is the handle `before` after one look at the same channel: it has
/// gone back nowhere, and once the channel was found closed it has seen the last
/// report.
pub open spec fn looked(before: HandleView, after: HandleView) -> bool {
    &&& after.gid == before.gid
    &&& after.course == before.course
    &&& before.marked <= after.marked
    &&& after.marked < after.course.len()
    &&& after.looks == before.looks + 1
    &&& before.sealed ==> after.sealed
    &&& after.sealed ==> after.marked == after.course.len() - 1
}

/// A report is delivered exactly if it is a later one than the last, and it is
/// the one that is seen now. Without one the handle waits, or says that the
/// channel is closed if that is so.
pub proof fn law_changed_delivers_news(handle: &mut DownloadHandle, step: WaitStep)
    requires
        call_ensures(DownloadHandle::changed, (handle,), step),
    ensures
        looked(old(handle)@, final(handle)@),
        final(handle)@.marked > old(handle)@.marked <==> (step matches WaitStep::Done(Ok(p))),
        step matches WaitStep::Done(Ok(p)) ==> p@ == final(handle)@.course[
            final(handle)@.marked as int
        ],
        step is Await <==> final(handle)@.marked == old(handle)@.marked && !final(handle)@.sealed,
        step matches WaitStep::Done(Err(e)) ==> e == Error::ChannelClosed && final(handle)@.sealed,
        forall|tx: watch::Sender<DownloadProgress>| #[trigger]
            linked(tx, final(handle).channel()) == linked(tx, old(handle).channel()),
{
}

/// A wait ends exactly if the report that is seen now is an end or none will
/// come, and with what that report says.
pub proof fn law_wait_ends_with_the_end(handle: &mut DownloadHandle, step: WaitStep)
    requires
        call_ensures(DownloadHandle::wait, (handle,), step),
    ensures
        looked(old(handle)@, final(handle)@),
        ({
            let latest = final(handle)@.course[final(handle)@.marked as int];
            let over = latest.status == DownloadStatus::Complete || latest.status
                == DownloadStatus::Removed;
            &&& over <==> (step matches WaitStep::Done(Ok(p)))
            &&& step matches WaitStep::Done(Ok(p)) ==> p@ == latest
            &&& latest.status == DownloadStatus::Error ==> {
                &&& step matches WaitStep::Done(Err(Error::DownloadFailed { gid, message }))
                &&& gid@ == latest.gid
                &&& latest.error_message matches Some(m) ==> message@ == m
                &&& latest.error_message is None ==> message@ == Seq::<char>::empty()
            }
            &&& !over && latest.status != DownloadStatus::Error ==> {
                &&& final(handle)@.sealed ==> step == WaitStep::Done(Err(Error::ChannelClosed))
                &&& !final(handle)@.sealed ==> step is Await
            }
        }),
        forall|tx: watch::Sender<DownloadProgress>| #[trigger]
            linked(tx, final(handle).channel()) == linked(tx, old(handle).channel()),
{
}

/// A snapshot is a report on the handle's own download, no older than what was
/// seen last, and the last one of all once the channel was found closed.
pub proof fn law_snapshot_is_current(
    handle: &DownloadHandle,
    latest: DownloadProgress,
    gid: &str,
)
    requires
        handle.wf(),
        call_ensures(DownloadHandle::progress, (handle,), latest),
        call_ensures(DownloadHandle::gid, (handle,), gid),
    ensures
        latest.gid@ == gid@,
        exists|i: int|
            handle@.marked <= i < handle@.course.len() && latest@ == #[trigger] handle@.course[i],
        handle@.sealed ==> latest@ == handle@.course.last(),
{
    let newer = handle@.course.skip(handle@.marked as int);
    assert(newer.contains(latest@));
    let k = choose|k: int| 0 <= k < newer.len() && newer[k] == latest@;
    assert(handle@.course[k + handle@.marked] == latest@);
    assert(latest@.gid == latest.gid@);
}

/// The handle gives out its own channel to wait on.
pub proof fn law_handle_waits_on_its_channel(
    handle: &DownloadHandle,
    rx: &watch::Receiver<DownloadProgress>,
)
    requires
        call_ensures(DownloadHandle::receiver, (handle,), rx),
    ensures
        *rx == handle.channel(),
{
}

// Signals.

/// The signal was raised once more, for one task.
pub open spec fn woken_one(before: SignalView, after: SignalView) -> bool {
    &&& after.origin == before.origin
    &&& after.singles == before.singles + 1
    &&& after.broadcasts == before.broadcasts
}

/// The signal was raised once more, for all tasks.
pub open spec fn woken_all(before: SignalView, after: SignalView) -> bool {
    &&& after.origin == before.origin
    &&& after.singles == before.singles
    &&& after.broadcasts == before.broadcasts + 1
}

/// A new signal was never raised; waking one task and waking all are each
/// counted as what they are; and what is waited on is the signal itself.
pub proof fn law_signals(
    fresh: Signal,
    one: &mut Signal,
    all: &mut Signal,
    signal: &Signal,
    notify: &Arc<Notify>,
)
    requires
        call_ensures(Signal::new, (), fresh),
        call_ensures(Signal::wake_one, (one,), ()),
        call_ensures(Signal::wake_all, (all,), ()),
        call_ensures(Signal::notify, (signal,), notify),
    ensures
        fresh@.singles == 0,
        fresh@.broadcasts == 0,
        woken_one(old(one)@, final(one)@),
        woken_all(old(all)@, final(all)@),
        is_the_signal(**notify, signal@),
{
}

/// `notify` is the signal of `view`, and was raised as often.
pub open spec fn is_the_signal(notify: Notify, view: SignalView) -> bool {
    &&& same_signal(view.origin, notify)
    &&& singles(notify) == view.singles
    &&& broadcasts(notify) == view.broadcasts
}

// The downloader.

/// A downloader that was just made holds no process, tracks nothing, and has
/// raised no signal; its first process gets the first generation.
pub proof fn law_new_downloader<P>(
    settings: Settings,
    downloader: Aria2Downloader<P>,
    gid: Seq<char>,
)
    requires
        call_ensures(Aria2Downloader::<P>::with_settings, (settings,), downloader),
    ensures
        downloader@.settings == settings,
        downloader@.process is None,
        !downloader@.tasks.live.contains_key(gid),
        !downloader@.tasks.closed.contains_key(gid),
        downloader@.activity.singles == 0,
        downloader@.activity.broadcasts == 0,
        downloader@.shutdown_signal.singles == 0,
        downloader@.shutdown_signal.broadcasts == 0,
        !downloader@.shutdown,
        downloader@.next_generation == 1,
        downloader@.active_generation == 0,
{
}

/// However a downloader is made, it starts like that.
pub proof fn law_every_new_downloader<P>(
    aria2_path: std::path::PathBuf,
    idle_timeout: std::time::Duration,
    short: Aria2Downloader<P>,
    builder: crate::settings::Aria2DownloaderBuilder,
    built: Aria2Downloader<P>,
    gid: Seq<char>,
)
    requires
        call_ensures(Aria2Downloader::<P>::new, (aria2_path, idle_timeout), short),
        call_ensures(crate::settings::Aria2DownloaderBuilder::build::<P>, (builder,), built),
    ensures
        forall|d: Aria2Downloader<P>|
            d == short || d == built ==> {
                &&& (#[trigger] d@).process is None
                &&& !d@.tasks.live.contains_key(gid)
                &&& !d@.shutdown
                &&& d@.next_generation == 1
                &&& d@.active_generation == 0
            },
{
}

/// What a downloader says of itself is what it is.
pub proof fn law_queries_tell_the_state<P>(
    d: &Aria2Downloader<P>,
    child: ChildState,
    generation: u64,
    running: bool,
    active: bool,
    ended: bool,
    idle: bool,
    gids: Vec<String>,
    activity: &Arc<Notify>,
    shutdown_signal: &Arc<Notify>,
    client: Result<&P, Error>,
)
    requires
        call_ensures(Aria2Downloader::<P>::is_running, (d, child), running),
        call_ensures(Aria2Downloader::<P>::is_generation_active, (d, generation), active),
        call_ensures(Aria2Downloader::<P>::has_ended, (d, generation), ended),
        call_ensures(Aria2Downloader::<P>::is_idle, (d,), idle),
        call_ensures(Aria2Downloader::<P>::gids, (d,), gids),
        call_ensures(Aria2Downloader::<P>::activity, (d,), activity),
        call_ensures(Aria2Downloader::<P>::shutdown_signal, (d,), shutdown_signal),
        call_ensures(Aria2Downloader::<P>::client, (d,), client),
    ensures
        running <==> d@.process is Some && child == ChildState::Alive,
        active <==> d@.active_generation == generation,
        ended <==> d@.shutdown || d@.active_generation != generation,
        idle <==> !tracks_any(d@.tasks),
        forall|gid: Seq<char>| #[trigger]
            d@.tasks.live.contains_key(gid) <==> lists(texts(gids@), gid),
        forall|i: int, j: int|
            0 <= i < j < gids@.len() ==> (#[trigger] gids@[i])@ != (#[trigger] gids@[j])@,
        is_the_signal(**activity, d@.activity),
        is_the_signal(**shutdown_signal, d@.shutdown_signal),
        d@.process matches Some(process) ==> (client matches Ok(c) && *c == process),
        d@.process is None ==> client == Err::<&P, Error>(Error::NotRunning),
{
    lemma_lists(texts(gids@));
    lemma_idle(d@.tasks);
    lemma_distinct_texts(gids@);
}

/// Looking at the process changes nothing but the process.
pub proof fn law_looking_at_the_process<P>(d: &mut Aria2Downloader<P>, process: Option<&mut P>)
    requires
        call_ensures(Aria2Downloader::<P>::process_mut, (d,), process),
    ensures
        process is Some <==> old(d)@.process is Some,
        process matches Some(p) ==> old(d)@.process == Some(*p) && final(d)@.process == Some(
            *final(p),
        ),
        process is None ==> final(d)@.process is None,
        same_settings_and_counters(old(d)@, final(d)@),
        final(d)@.tasks == old(d)@.tasks,
        final(d)@.activity == old(d)@.activity,
        final(d)@.shutdown == old(d)@.shutdown,
        final(d)@.shutdown_signal == old(d)@.shutdown_signal,
        final(d)@.active_generation == old(d)@.active_generation,
{
}

/// The settings, and which generation is next, are the same.
pub open spec fn same_settings_and_counters<P>(
    before: DownloaderView<P>,
    after: DownloaderView<P>,
) -> bool {
    &&& after.settings == before.settings
    &&& after.next_generation == before.next_generation
}

/// Nothing about the process and the lifecycle has changed.
pub open spec fn same_process<P>(before: DownloaderView<P>, after: DownloaderView<P>) -> bool {
    &&& same_settings_and_counters(before, after)
    &&& after.process == before.process
    &&& after.active_generation == before.active_generation
    &&& after.shutdown == before.shutdown
    &&& after.shutdown_signal == before.shutdown_signal
}

/// Every download that was tracked was failed with `message`, and the idle
/// watcher was woken for it; without any, nothing has happened.
pub open spec fn gave_up_downloads<P>(
    before: DownloaderView<P>,
    after: DownloaderView<P>,
    message: Seq<char>,
) -> bool {
    &&& tracks_any(before.tasks) ==> {
        &&& all_given_up(before.tasks, after.tasks, message)
        &&& woken_one(before.activity, after.activity)
    }
    &&& !tracks_any(before.tasks) ==> {
        &&& after.tasks == before.tasks
        &&& after.activity == before.activity
    }
}

/// Failing all downloads does that, and nothing else.
pub proof fn law_fail_all_tasks<P>(d: &mut Aria2Downloader<P>, message: &str)
    requires
        call_ensures(Aria2Downloader::<P>::fail_all_tasks, (d, message), ()),
    ensures
        gave_up_downloads(old(d)@, final(d)@, message@),
        same_process(old(d)@, final(d)@),
{
    lemma_idle(old(d)@.tasks);
}

/// Stopping hands the process over to be killed, ends its generation, and fails
/// its downloads; without a process it does nothing.
pub proof fn law_stop_process<P>(d: &mut Aria2Downloader<P>, process: Option<P>)
    requires
        call_ensures(Aria2Downloader::<P>::stop_process, (d,), process),
    ensures
        process == old(d)@.process,
        old(d)@.process is None ==> final(d)@ == old(d)@,
        old(d)@.process is Some ==> {
            &&& final(d)@.process is None
            &&& final(d)@.active_generation == 0
            &&& gave_up_downloads(old(d)@, final(d)@, "aria2c process stopped"@)
            &&& same_settings_and_counters(old(d)@, final(d)@)
            &&& final(d)@.shutdown == old(d)@.shutdown
            &&& final(d)@.shutdown_signal == old(d)@.shutdown_signal
        },
{
    lemma_idle(old(d)@.tasks);
}

/// Closing tells all background activities to end, and does nothing else.
pub proof fn law_close<P>(d: &mut Aria2Downloader<P>)
    requires
        call_ensures(Aria2Downloader::<P>::close, (d,), ()),
    ensures
        final(d)@.shutdown,
        woken_all(old(d)@.shutdown_signal, final(d)@.shutdown_signal),
        same_settings_and_counters(old(d)@, final(d)@),
        final(d)@.process == old(d)@.process,
        final(d)@.active_generation == old(d)@.active_generation,
        final(d)@.tasks == old(d)@.tasks,
        final(d)@.activity == old(d)@.activity,
{
}

/// Shutting down tells all background activities to end, hands the process over
/// to be killed, and fails every download in flight, process or not.
pub proof fn law_shutdown<P>(d: &mut Aria2Downloader<P>, process: Option<P>)
    requires
        call_ensures(Aria2Downloader::<P>::shutdown, (d,), process),
    ensures
        process == old(d)@.process,
        final(d)@.process is None,
        final(d)@.shutdown,
        woken_all(old(d)@.shutdown_signal, final(d)@.shutdown_signal),
        gave_up_downloads(old(d)@, final(d)@, "aria2c process stopped"@),
        !tracks_any(final(d)@.tasks),
        old(d)@.process is Some ==> final(d)@.active_generation == 0,
        old(d)@.process is None ==> final(d)@.active_generation == old(d)@.active_generation,
        same_settings_and_counters(old(d)@, final(d)@),
{
    lemma_idle(old(d)@.tasks);
    lemma_idle(final(d)@.tasks);
}

/// A living process is left alone.
pub proof fn law_living_process_is_kept<P>(
    d: &mut Aria2Downloader<P>,
    nanos: u128,
    step: StartStep,
)
    requires
        call_ensures(Aria2Downloader::<P>::ensure_running, (d, ChildState::Alive, nanos), step),
        old(d)@.process is Some,
    ensures
        step is Running,
        final(d)@ == old(d)@,
{
}

/// Without a living process one is launched, as the next generation: on the
/// configured port, for a client that goes to that port with the secret that the
/// process was given, which is the time in hexadecimal, and with the configured
/// arguments behind.
pub proof fn law_launch<P>(
    d: &mut Aria2Downloader<P>,
    child: ChildState,
    nanos: u128,
    step: StartStep,
)
    requires
        call_ensures(Aria2Downloader::<P>::ensure_running, (d, child, nanos), step),
        old(d)@.process is None || child != ChildState::Alive,
    ensures
        step matches StartStep::Launch(launch) && {
            &&& launch.generation == old(d)@.next_generation
            &&& exists|number: Seq<char>, secret: Seq<char>|
                #![trigger writes(number, old(d)@.settings.rpc_port as int, 10), writes(secret, nanos as int, 16)]
                {
                    &&& writes(number, old(d)@.settings.rpc_port as int, 10)
                    &&& writes(secret, nanos as int, 16)
                    &&& is_command_line(
                        texts(launch.args@),
                        number,
                        secret,
                        texts(old(d)@.settings.extra_args@),
                    )
                    &&& is_address(launch.connection, number, secret)
                }
        },
{
    let number = crate::text::decimal(old(d)@.settings.rpc_port as nat);
    let secret = crate::text::hex(nanos as nat);
    crate::request_laws::lemma_numeral_writes(old(d)@.settings.rpc_port as nat, 10);
    crate::request_laws::lemma_numeral_writes(nanos as nat, 16);
    assert(writes(number, old(d)@.settings.rpc_port as int, 10));
    assert(writes(secret, nanos as int, 16));
    if let StartStep::Launch(launch) = step {
        assert(launch.connection.token is Some);
    }
}

/// Before a launch, a process that is not alive is given up and its downloads
/// are failed with what was found; downloads are left alone if none was held.
/// The background activities may run again, and the next launch gets the next
/// generation.
pub proof fn law_launch_clears_the_slot<P>(
    d: &mut Aria2Downloader<P>,
    child: ChildState,
    nanos: u128,
    step: StartStep,
)
    requires
        call_ensures(Aria2Downloader::<P>::ensure_running, (d, child, nanos), step),
        old(d)@.process is None || child != ChildState::Alive,
    ensures
        final(d)@.process is None,
        !final(d)@.shutdown,
        final(d)@.shutdown_signal == old(d)@.shutdown_signal,
        final(d)@.settings == old(d)@.settings,
        old(d)@.next_generation < u64::MAX ==> final(d)@.next_generation == old(d)@.next_generation
            + 1,
        old(d)@.next_generation == u64::MAX ==> final(d)@.next_generation == 0,
        old(d)@.process is Some ==> final(d)@.active_generation == 0,
        old(d)@.process is None ==> {
            &&& final(d)@.active_generation == old(d)@.active_generation
            &&& final(d)@.tasks == old(d)@.tasks
            &&& final(d)@.activity == old(d)@.activity
        },
        old(d)@.process is Some && child == ChildState::Exited ==> gave_up_downloads(
            old(d)@,
            final(d)@,
            "aria2c process exited unexpectedly"@,
        ),
        old(d)@.process is Some && child == ChildState::Unknown ==> gave_up_downloads(
            old(d)@,
            final(d)@,
            "failed to inspect aria2c process state"@,
        ),
{
    lemma_idle(old(d)@.tasks);
}

/// A process that was started is held as the generation that it was launched as.
pub proof fn law_started<P>(d: &mut Aria2Downloader<P>, generation: u64, process: P)
    requires
        call_ensures(Aria2Downloader::<P>::started, (d, generation, process), ()),
    ensures
        final(d)@.process == Some(process),
        final(d)@.active_generation == generation,
        same_settings_and_counters(old(d)@, final(d)@),
        final(d)@.tasks == old(d)@.tasks,
        final(d)@.activity == old(d)@.activity,
        final(d)@.shutdown == old(d)@.shutdown,
        final(d)@.shutdown_signal == old(d)@.shutdown_signal,
{
}

/// A submission restarts the idle countdown and goes to the process that is
/// held; it does nothing else.
pub proof fn law_submit<P>(d: &mut Aria2Downloader<P>, process: Result<&P, Error>)
    requires
        call_ensures(Aria2Downloader::<P>::submit, (d,), process),
    ensures
        woken_one(old(d)@.activity, final(d)@.activity),
        same_process(old(d)@, final(d)@),
        final(d)@.tasks == old(d)@.tasks,
        old(d)@.process matches Some(p) ==> (process matches Ok(q) && *q == p),
        old(d)@.process is None ==> process == Err::<&P, Error>(Error::NotRunning),
{
}

/// A download that aria2 has accepted is tracked, and its handle receives from
/// the channel that is tracked; no other download is touched.
pub proof fn law_accept<P>(d: &mut Aria2Downloader<P>, gid: String, handle: DownloadHandle)
    requires
        call_ensures(Aria2Downloader::<P>::accept, (d, gid), handle),
    ensures
        taken_in(old(d)@.tasks, final(d)@.tasks, gid@),
        is_new_handle(handle, gid@, final(d)@.tasks.live[gid@]),
        same_process(old(d)@, final(d)@),
        final(d)@.activity == old(d)@.activity,
{
}

/// The handle of a download is known by the GID that aria2 gave it.
pub proof fn law_handle_bears_the_gid<P>(
    d: &mut Aria2Downloader<P>,
    gid: String,
    handle: DownloadHandle,
    name: &str,
)
    requires
        call_ensures(Aria2Downloader::<P>::accept, (d, gid), handle),
        call_ensures(DownloadHandle::gid, (&handle,), name),
    ensures
        name@ == gid@,
{
}

/// A report goes to the download that it is for, and to no other.
pub proof fn law_publish<P>(d: &mut Aria2Downloader<P>, gid: &String, progress: DownloadProgress)
    requires
        call_ensures(Aria2Downloader::<P>::publish, (d, gid, progress), ()),
    ensures
        informed(old(d)@.tasks, final(d)@.tasks, gid@, progress@),
        same_process(old(d)@, final(d)@),
        final(d)@.activity == old(d)@.activity,
{
}

/// Downloads that have ended are no longer tracked, and the idle watcher is
/// woken if there are any.
pub proof fn law_retire<P>(d: &mut Aria2Downloader<P>, gids: &Vec<String>)
    requires
        call_ensures(Aria2Downloader::<P>::retire, (d, gids), ()),
    ensures
        let_go(old(d)@.tasks, final(d)@.tasks, texts(gids@)),
        same_process(old(d)@, final(d)@),
        gids@.len() > 0 ==> woken_one(old(d)@.activity, final(d)@.activity),
        gids@.len() == 0 ==> final(d)@.activity == old(d)@.activity,
{
    lemma_lists(texts(gids@));
}

// The poller.

/// A new poller is between two rounds of its process.
pub proof fn law_new_poller(generation: u64, poller: Poller)
    requires
        call_ensures(Poller::new, (generation,), poller),
    ensures
        poller@.generation == generation,
        poller@.pending.len() == 0,
        poller@.finished.len() == 0,
{
}

/// On a tick the poller ends with its process or with the downloader, rests if
/// nothing is tracked, and otherwise begins a round over all that is tracked,
/// each download once.
pub proof fn law_tick_begins_a_round<P>(
    poller: &mut Poller,
    d: &Aria2Downloader<P>,
    step: PollStep,
)
    requires
        call_ensures(Poller::tick::<P>, (poller, d), step),
    ensures
        final(poller)@.generation == old(poller)@.generation,
        step is Exit <==> d@.shutdown || d@.active_generation != old(poller)@.generation,
        step is Wait <==> !d@.shutdown && d@.active_generation == old(poller)@.generation
            && !tracks_any(d@.tasks),
        step is Connect <==> !d@.shutdown && d@.active_generation == old(poller)@.generation
            && tracks_any(d@.tasks),
        step is Connect ==> {
            &&& forall|gid: Seq<char>| #[trigger]
                d@.tasks.live.contains_key(gid) <==> lists(final(poller)@.pending, gid)
            &&& final(poller)@.pending.no_duplicates()
            &&& final(poller)@.finished.len() == 0
        },
        !(step is Connect) ==> final(poller)@ == old(poller)@,
{
    lemma_idle(d@.tasks);
    lemma_lists(final(poller)@.pending);
}

/// `step` goes on with the downloads that are still pending, one at a time.
pub open spec fn goes_on_with(step: PollStep, pending: Seq<Seq<char>>) -> bool {
    &&& pending.len() == 0 ==> step is Wait
    &&& pending.len() > 0 ==> (step matches PollStep::Query(gid) && gid@ == pending[pending.len()
        - 1])
}

/// A round needs a process: without one the poller ends, and with one it queries
/// what is pending.
pub proof fn law_round_needs_a_process<P>(
    poller: &Poller,
    d: &Aria2Downloader<P>,
    step: PollStep,
)
    requires
        call_ensures(Poller::connect::<P>, (poller, d), step),
    ensures
        d@.process is None ==> step is Exit,
        d@.process is Some ==> goes_on_with(step, poller@.pending),
{
}

/// Whether `gid` is let go of when `reply` has come for the poller's next
/// download: only with the last reply of a round, and exactly if it has ended.
pub open spec fn leaves_with(
    pending: Seq<Seq<char>>,
    finished: Seq<Seq<char>>,
    reply: Result<Status, String>,
    gid: Seq<char>,
) -> bool {
    pending.len() == 1 && (lists(finished, gid) || (gid == pending[0] && ends_it(reply)))
}

/// Every answer reaches its download: whatever aria2 says, a tracked download
/// that was asked about is told it, once, and nothing else.
pub proof fn law_reply_is_told<P>(
    poller: &mut Poller,
    d: &mut Aria2Downloader<P>,
    reply: Result<Status, String>,
    step: PollStep,
    gid: Seq<char>,
)
    requires
        call_ensures(Poller::reply::<P>, (poller, d, reply), step),
        old(poller)@.pending.len() > 0,
        gid == old(poller)@.pending[old(poller)@.pending.len() - 1],
        old(d)@.tasks.live.contains_key(gid),
    ensures
        ({
            let before = old(d)@.tasks.live[gid];
            let leaves = leaves_with(old(poller)@.pending, old(poller)@.finished, reply, gid);
            let after = if leaves {
                final(d)@.tasks.closed[gid]
            } else {
                final(d)@.tasks.live[gid]
            };
            &&& leaves ==> !final(d)@.tasks.live.contains_key(gid)
                && final(d)@.tasks.closed.contains_key(gid)
            &&& !leaves ==> final(d)@.tasks.live.contains_key(gid) && same_closed(
                old(d)@.tasks,
                final(d)@.tasks,
                gid,
            )
            &&& one_more(before, after)
            &&& says_what_came(after.told.last(), gid, reply)
        }),
{
    let report = crate::poller::answer(gid, reply);
    let finished = old(poller)@.answered(report).finished;
    lemma_finished(old(poller)@, reply);
    lemma_lists(finished);
    assert(lists(finished, gid) <==> finished.to_set().contains(gid));
    assert(says_what_came(report, gid, reply));
}

/// The downloads that a round has found to have ended, after one more reply.
proof fn lemma_finished(poller: crate::poller::PollerView, reply: Result<Status, String>)
    requires
        poller.pending.len() > 0,
    ensures
        ({
            let gid = poller.pending.last();
            let report = crate::poller::answer(gid, reply);
            let finished = poller.answered(report).finished;
            &&& report.finished() <==> ends_it(reply)
            &&& finished.len() == poller.finished.len() + (if ends_it(reply) {
                1int
            } else {
                0int
            })
            &&& forall|g: Seq<char>| #[trigger]
                lists(finished, g) <==> lists(poller.finished, g) || (g == gid && ends_it(reply))
        }),
{
    let gid = poller.pending.last();
    let report = crate::poller::answer(gid, reply);
    let finished = poller.answered(report).finished;
    assert(report.finished() <==> ends_it(reply));
    assert forall|g: Seq<char>| #[trigger]
        lists(finished, g) <==> lists(poller.finished, g) || (g == gid && ends_it(reply)) by {
        if lists(poller.finished, g) {
            let i = choose|i: int|
                0 <= i < poller.finished.len() && #[trigger] poller.finished[i] == g;
            assert(finished[i] == g);
        }
        if g == gid && ends_it(reply) {
            assert(finished[finished.len() - 1] == g);
        }
        if lists(finished, g) {
            let i = choose|i: int| 0 <= i < finished.len() && #[trigger] finished[i] == g;
            if i < poller.finished.len() {
                assert(poller.finished[i] == g);
            }
        }
    }
}

/// No other download is told anything by a reply; with the last one of a round,
/// those that have ended are let go of as they are.
pub proof fn law_reply_spares_others<P>(
    poller: &mut Poller,
    d: &mut Aria2Downloader<P>,
    reply: Result<Status, String>,
    step: PollStep,
    other: Seq<char>,
)
    requires
        call_ensures(Poller::reply::<P>, (poller, d, reply), step),
        old(poller)@.pending.len() > 0,
        other != old(poller)@.pending[old(poller)@.pending.len() - 1] || !old(
            d,
        )@.tasks.live.contains_key(other),
    ensures
        ({
            let leaves = leaves_with(old(poller)@.pending, old(poller)@.finished, reply, other);
            &&& !(leaves && old(d)@.tasks.live.contains_key(other)) ==> same_for(
                old(d)@.tasks,
                final(d)@.tasks,
                other,
            )
            &&& leaves && old(d)@.tasks.live.contains_key(other) ==> {
                &&& !final(d)@.tasks.live.contains_key(other)
                &&& final(d)@.tasks.closed.contains_key(other)
                &&& final(d)@.tasks.closed[other] == old(d)@.tasks.live[other]
            }
        }),
{
    let gid = old(poller)@.pending.last();
    let report = crate::poller::answer(gid, reply);
    let finished = old(poller)@.answered(report).finished;
    lemma_finished(old(poller)@, reply);
    lemma_lists(finished);
    assert(lists(finished, other) <==> finished.to_set().contains(other));
}

/// A reply takes the poller one download further: it remembers those that have
/// ended until the round is over, and the idle watcher is woken then if there
/// are any. Nothing else about the downloader changes.
pub proof fn law_reply_goes_on<P>(
    poller: &mut Poller,
    d: &mut Aria2Downloader<P>,
    reply: Result<Status, String>,
    step: PollStep,
)
    requires
        call_ensures(Poller::reply::<P>, (poller, d, reply), step),
    ensures
        final(poller)@.generation == old(poller)@.generation,
        same_process(old(d)@, final(d)@),
        goes_on_with(step, final(poller)@.pending),
        old(poller)@.pending.len() == 0 ==> final(poller)@ == old(poller)@ && final(d)@ == old(d)@,
        old(poller)@.pending.len() > 0 ==> {
            let n = old(poller)@.pending.len();
            &&& final(poller)@.pending == old(poller)@.pending.take(n - 1)
            &&& n == 1 ==> final(poller)@.finished.len() == 0
            &&& n > 1 ==> forall|gid: Seq<char>| #[trigger]
                lists(final(poller)@.finished, gid) <==> lists(old(poller)@.finished, gid) || (gid
                    == old(poller)@.pending[n - 1] && ends_it(reply))
            &&& n == 1 && (old(poller)@.finished.len() > 0 || ends_it(reply)) ==> woken_one(
                old(d)@.activity,
                final(d)@.activity,
            )
            &&& !(n == 1 && (old(poller)@.finished.len() > 0 || ends_it(reply)))
                ==> final(d)@.activity == old(d)@.activity
        },
{
    if old(poller)@.pending.len() > 0 {
        lemma_finished(old(poller)@, reply);
        assert(old(poller)@.pending.drop_last() =~= old(poller)@.pending.take(
            old(poller)@.pending.len() - 1,
        ));
    }
}

// The idle watcher.

/// While downloads are tracked, or before an idle countdown has run out, the
/// watcher of a process that is in use stops nothing. With nothing tracked it
/// counts down the configured idle timeout, whatever has woken it.
pub proof fn law_countdown_is_the_idle_timeout<P>(
    watcher: &IdleWatcher,
    d: &mut Aria2Downloader<P>,
    event: IdleEvent,
    step: IdleStep<P>,
)
    requires
        call_ensures(IdleWatcher::step::<P>, (watcher, d, event), step),
        event == IdleEvent::Begin || event == IdleEvent::Activity || (event == IdleEvent::TimedOut
            && tracks_any(old(d)@.tasks)),
        !old(d)@.shutdown,
        old(d)@.active_generation == watcher.generation(),
    ensures
        tracks_any(old(d)@.tasks) ==> step is AwaitActivity,
        !tracks_any(old(d)@.tasks) ==> step == IdleStep::<P>::Countdown(
            old(d)@.settings.idle_timeout,
        ),
        final(d)@ == old(d)@,
{
    lemma_idle(old(d)@.tasks);
}

/// When the countdown has run out and nothing is tracked, the process that is
/// watched is given up and handed over to be killed.
pub proof fn law_idle_process_is_stopped<P>(
    watcher: &IdleWatcher,
    d: &mut Aria2Downloader<P>,
    step: IdleStep<P>,
)
    requires
        call_ensures(IdleWatcher::step::<P>, (watcher, d, IdleEvent::TimedOut), step),
        !tracks_any(old(d)@.tasks),
        old(d)@.active_generation == watcher.generation(),
    ensures
        step == IdleStep::Stopped(old(d)@.process),
        final(d)@.process is None,
        old(d)@.process is Some ==> final(d)@.active_generation == 0,
        final(d)@.tasks == old(d)@.tasks,
        final(d)@.activity == old(d)@.activity,
        same_settings_and_counters(old(d)@, final(d)@),
        final(d)@.shutdown == old(d)@.shutdown,
        final(d)@.shutdown_signal == old(d)@.shutdown_signal,
{
    lemma_idle(old(d)@.tasks);
}

/// The watcher ends on shutdown, and with the process that it watches, and stops
/// nothing then.
pub proof fn law_watcher_ends<P>(
    watcher: &IdleWatcher,
    d: &mut Aria2Downloader<P>,
    event: IdleEvent,
    step: IdleStep<P>,
)
    requires
        call_ensures(IdleWatcher::step::<P>, (watcher, d, event), step),
        event == IdleEvent::Shutdown || old(d)@.active_generation != watcher.generation() || (
        old(d)@.shutdown && (event != IdleEvent::TimedOut || tracks_any(old(d)@.tasks))),
    ensures
        step is Exit,
        final(d)@ == old(d)@,
{
    lemma_idle(old(d)@.tasks);
}

/// A watcher watches the process that it was made for.
pub proof fn law_new_watcher(generation: u64, watcher: IdleWatcher)
    requires
        call_ensures(IdleWatcher::new, (generation,), watcher),
    ensures
        watcher.generation() == generation,
{
}

} // verus!
