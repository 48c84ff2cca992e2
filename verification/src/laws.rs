//! What holds of the library as a whole.
//!
//! Each function here proves one law, over the same models that the contracts
//! of the executable functions are stated in.

use crate::aria2::{reported, rpc_token, rpc_url, Status, TaskStatus};
use crate::channel::{course, is_changed_step, is_wait_step, HandleView, Line, WaitStep};
use crate::downloader::{
    is_launch_for, loss_message, stop_message, ChildState, DownloaderView, Launch,
};
use crate::error::Error;
use crate::idle::{idle_expired, idle_step, IdleEvent, IdleStep};
use crate::poller::{answer, downloader_after, poller_after, PollerView};
use crate::progress::{is_finish_of, DownloadProgress, DownloadStatus, ProgressView};
use crate::registry::TaskTableView;
use crate::settings::Settings;
use crate::text::{decimal, texts};
use tokio::sync::watch;
use vstd::prelude::*;

verus! {

/// The counters agree with the process slot: a generation is active exactly
/// while a process is held, and it was handed out before.
pub open spec fn coherent<P>(d: DownloaderView<P>) -> bool {
    &&& d.process is Some <==> d.active_generation != 0
    &&& d.active_generation < d.next_generation
}

/// Everything that can happen to a downloader.
pub enum Operation<P> {
    /// A launch is prepared, after the process was found as this.
    Launching(ChildState),
    /// The process of the latest launch was started.
    Started(P),
    /// The process is stopped.
    Stop,
    /// The background activities are told to end.
    Close,
    /// The downloader is shut down.
    ShutDown,
    /// A download is submitted.
    Submit,
    /// aria2 has accepted a download under this GID, and it got this channel.
    Accept(Seq<char>, watch::Sender<DownloadProgress>),
    /// A download is told how it stands.
    Tell(Seq<char>, ProgressView),
    /// Downloads are no longer tracked.
    Retire(Seq<Seq<char>>),
    /// Every download is failed with this message.
    FailAll(Seq<char>),
    /// A poller in this state has got a reply.
    Reply(PollerView, Result<Status, String>),
    /// The idle watcher of this generation has woken up.
    Idle(u64, IdleEvent),
}

/// The downloader after `op`.
pub open spec fn apply<P>(d: DownloaderView<P>, op: Operation<P>) -> DownloaderView<P> {
    match op {
        Operation::Launching(child) => d.launching(child),
        Operation::Started(process) => d.started((d.next_generation - 1) as u64, process),
        Operation::Stop => d.stopped(),
        Operation::Close => d.closing(),
        Operation::ShutDown => d.shut_down(),
        Operation::Submit => d.submitted(),
        Operation::Accept(gid, channel) => d.accepted(gid, channel),
        Operation::Tell(gid, report) => d.told(gid, report),
        Operation::Retire(gids) => d.retired(gids),
        Operation::FailAll(message) => d.tasks_failed(message),
        Operation::Reply(poller, reply) => downloader_after(d, poller, reply),
        Operation::Idle(generation, event) => if idle_expired(d, generation, event) {
            d.stopped()
        } else {
            d
        },
    }
}

/// Whether `op` may happen to `d`. A launch is prepared only for want of a
/// living process, and not once the generations are used up; a process is
/// started only after a launch has emptied the slot; aria2 gives each download
/// a GID of its own; a download is told of itself, and let go once it was told
/// of its end; and a poller's rounds are in order.
pub open spec fn permitted<P>(d: DownloaderView<P>, op: Operation<P>) -> bool {
    match op {
        Operation::Launching(child) => !d.is_alive(child) && d.next_generation < u64::MAX,
        Operation::Started(_) => d.process is None && d.next_generation > 1,
        Operation::Accept(gid, _) => !d.tasks.tracks(gid),
        Operation::Tell(gid, report) => report.gid == gid,
        Operation::Retire(gids) => forall|gid: Seq<char>| #[trigger]
            gids.contains(gid) && d.tasks.tracks(gid) ==> ends(d.tasks.live[gid]),
        Operation::Reply(poller, _) => round_in_order(poller, d.tasks),
        _ => true,
    }
}

/// The downloader after all of `ops`, one after the other.
pub open spec fn run<P>(d: DownloaderView<P>, ops: Seq<Operation<P>>) -> DownloaderView<P>
    decreases ops.len(),
{
    if ops.len() == 0 {
        d
    } else {
        apply(run(d, ops.drop_last()), ops.last())
    }
}

/// Whether each of `ops` may happen when its turn comes.
pub open spec fn permitted_run<P>(d: DownloaderView<P>, ops: Seq<Operation<P>>) -> bool
    decreases ops.len(),
{
    ops.len() == 0 || (permitted_run(d, ops.drop_last()) && permitted(
        run(d, ops.drop_last()),
        ops.last(),
    ))
}

/// What is always true of a downloader: its counters agree with its process
/// slot, each history speaks of its own download, and no channel was closed
/// before it was told how its download ended.
pub open spec fn sound<P>(d: DownloaderView<P>) -> bool {
    coherent(d) && well_kept(d.tasks) && settled(d.tasks)
}

/// Everything that may happen to a sound downloader leaves it sound.
pub proof fn law_sound_step<P>(d: DownloaderView<P>, op: Operation<P>)
    requires
        sound(d),
        permitted(d, op),
    ensures
        sound(apply(d, op)),
{
    let t = d.tasks;
    let nobody = ProgressView::pending(Seq::empty());
    match op {
        Operation::Launching(child) => {
            law_histories_well_kept(t, nobody.gid, nobody, Set::empty(), loss_message(child));
            law_settled_always(t, nobody.gid, nobody, Set::empty(), loss_message(child));
        },
        Operation::Stop | Operation::ShutDown | Operation::Idle(..) => {
            law_histories_well_kept(t, nobody.gid, nobody, Set::empty(), stop_message());
            law_settled_always(t, nobody.gid, nobody, Set::empty(), stop_message());
        },
        Operation::Accept(gid, _) => {
            law_histories_well_kept(t, gid, ProgressView::pending(gid), Set::empty(), Seq::empty());
            law_settled_always(t, gid, nobody, Set::empty(), Seq::empty());
        },
        Operation::Tell(gid, report) => {
            law_histories_well_kept(t, gid, report, Set::empty(), Seq::empty());
            law_settled_always(t, gid, report, Set::empty(), Seq::empty());
        },
        Operation::Retire(gids) => {
            law_histories_well_kept(t, nobody.gid, nobody, gids.to_set(), Seq::empty());
            law_settled_always(t, nobody.gid, nobody, gids.to_set(), Seq::empty());
        },
        Operation::FailAll(message) => {
            law_histories_well_kept(t, nobody.gid, nobody, Set::empty(), message);
            law_settled_always(t, nobody.gid, nobody, Set::empty(), message);
        },
        Operation::Reply(poller, reply) => {
            law_reply_keeps_order(d, poller, reply);
            if poller.pending.len() > 0 {
                let gid = poller.pending.last();
                let report = answer(gid, reply);
                law_histories_well_kept(t, gid, report, Set::empty(), Seq::empty());
                law_histories_well_kept(
                    t.told(gid, report),
                    gid,
                    report,
                    poller.answered(report).finished.to_set(),
                    Seq::empty(),
                );
            }
        },
        _ => {},
    }
}

/// A downloader is sound from the start and stays so, whatever happens to it.
pub proof fn law_sound_always<P>(d: DownloaderView<P>, ops: Seq<Operation<P>>)
    requires
        d.is_fresh(),
        permitted_run(d, ops),
    ensures
        sound(run(d, ops)),
    decreases ops.len(),
{
    if ops.len() > 0 {
        law_sound_always(d, ops.drop_last());
        law_sound_step(run(d, ops.drop_last()), ops.last());
    }
}

/// The process is started lazily: a new downloader holds none, and however
/// long it runs it holds none before one is started. A launch leaves the slot
/// empty, so a process is never replaced by another.
pub proof fn law_lazy_start<P>(d: DownloaderView<P>, ops: Seq<Operation<P>>, child: ChildState)
    requires
        d.is_fresh(),
        forall|i: int| 0 <= i < ops.len() ==> !(#[trigger] ops[i] is Started),
    ensures
        run(d, ops).process is None,
        run(d, ops).launching(child).process is None,
    decreases ops.len(),
{
    if ops.len() > 0 {
        law_lazy_start(d, ops.drop_last(), child);
    }
}

/// Generations are unique: a launch gets one above that of the process that is
/// held, and whatever happens afterwards, a later launch gets a greater one.
pub proof fn law_generations_increase<P>(
    d: DownloaderView<P>,
    child: ChildState,
    ops: Seq<Operation<P>>,
)
    requires
        coherent(d),
        permitted(d, Operation::Launching(child)),
        permitted_run(d.launching(child), ops),
    ensures
        d.active_generation < d.next_generation,
        d.next_generation < run(d.launching(child), ops).next_generation,
    decreases ops.len(),
{
    if ops.len() > 0 {
        law_generations_increase(d, child, ops.drop_last());
    }
}

/// Whether a launch was prepared by `ops` whose process was not started yet.
pub open spec fn launch_pending<P>(ops: Seq<Operation<P>>) -> bool
    decreases ops.len(),
{
    ops.len() > 0 && match ops.last() {
        Operation::Launching(_) => true,
        Operation::Started(_) => false,
        _ => launch_pending(ops.drop_last()),
    }
}

/// Whether each of `ops` may happen when its turn comes, and each launch is
/// followed by at most one start, its own.
pub open spec fn orderly_run<P>(d: DownloaderView<P>, ops: Seq<Operation<P>>) -> bool
    decreases ops.len(),
{
    ops.len() == 0 || {
        &&& orderly_run(d, ops.drop_last())
        &&& permitted(run(d, ops.drop_last()), ops.last())
        &&& ops.last() is Started ==> launch_pending(ops.drop_last())
    }
}

/// `generation` was handed out, and no start of its process is to come.
spec fn used_up<P>(d: DownloaderView<P>, ops: Seq<Operation<P>>, generation: u64) -> bool {
    let next = run(d, ops).next_generation;
    &&& 0 < generation < next
    &&& generation + 1 == next ==> !launch_pending(ops)
}

/// While a launch is pending no generation is active, and an active one is used
/// up.
proof fn lemma_active_is_used_up<P>(d: DownloaderView<P>, ops: Seq<Operation<P>>)
    requires
        d.is_fresh(),
        orderly_run(d, ops),
    ensures
        coherent(run(d, ops)),
        launch_pending(ops) ==> run(d, ops).active_generation == 0,
        run(d, ops).active_generation != 0 ==> used_up(d, ops, run(d, ops).active_generation),
    decreases ops.len(),
{
    if ops.len() > 0 {
        lemma_active_is_used_up(d, ops.drop_last());
    }
}

/// Generations are never 0 and never used again. Once `generation` has been
/// active and is so no longer, it stays inactive whatever happens, with any
/// number of failed starts between; its background activities stay ended; and
/// what is active later is a greater one.
pub proof fn law_generations_never_return<P>(
    d: DownloaderView<P>,
    ops: Seq<Operation<P>>,
    active: int,
    stopped: int,
    later: int,
)
    requires
        d.is_fresh(),
        orderly_run(d, ops),
        0 <= active <= stopped <= later <= ops.len(),
        run(d, ops.take(active)).active_generation != 0,
        run(d, ops.take(stopped)).active_generation != run(
            d,
            ops.take(active),
        ).active_generation,
    ensures
        run(d, ops.take(later)).active_generation != run(d, ops.take(active)).active_generation,
        run(d, ops.take(later)).has_ended(run(d, ops.take(active)).active_generation),
        run(d, ops.take(later)).active_generation != 0 ==> run(
            d,
            ops.take(active),
        ).active_generation < run(d, ops.take(later)).active_generation,
{
    let generation = run(d, ops.take(active)).active_generation;
    lemma_orderly_take(d, ops, active);
    lemma_active_is_used_up(d, ops.take(active));
    lemma_used_up_stays(d, ops, generation, active, stopped);
    lemma_used_up_stays(d, ops, generation, stopped, later);
}

proof fn lemma_orderly_take<P>(d: DownloaderView<P>, ops: Seq<Operation<P>>, k: int)
    requires
        orderly_run(d, ops),
        0 <= k <= ops.len(),
    ensures
        orderly_run(d, ops.take(k)),
    decreases ops.len(),
{
    if k == ops.len() {
        assert(ops.take(k) =~= ops);
    } else {
        lemma_orderly_take(d, ops.drop_last(), k);
        assert(ops.drop_last().take(k) =~= ops.take(k));
    }
}

/// A generation that is used up stays so; it is not followed by a smaller one,
/// and does not become active again.
proof fn lemma_used_up_stays<P>(
    d: DownloaderView<P>,
    ops: Seq<Operation<P>>,
    generation: u64,
    from: int,
    to: int,
)
    requires
        orderly_run(d, ops),
        0 <= from <= to <= ops.len(),
        used_up(d, ops.take(from), generation),
        run(d, ops.take(from)).active_generation == 0 || run(d, ops.take(from)).active_generation
            >= generation,
    ensures
        used_up(d, ops.take(to), generation),
        run(d, ops.take(to)).active_generation == 0 || run(d, ops.take(to)).active_generation
            >= generation,
        run(d, ops.take(from)).active_generation != generation ==> run(
            d,
            ops.take(to),
        ).active_generation != generation,
    decreases to - from,
{
    if from < to {
        lemma_used_up_stays(d, ops, generation, from, to - 1);
        lemma_orderly_take(d, ops, to);
        assert(ops.take(to).drop_last() =~= ops.take(to - 1));
    }
}

/// Background activities do not outlive their process: those of an earlier
/// generation end once another process is started, those of the current one
/// once it is stopped or found dead, and all of them once the downloader shuts
/// down.
pub proof fn law_stale_activities_end<P>(
    d: DownloaderView<P>,
    child: ChildState,
    generation: u64,
    process: P,
)
    requires
        coherent(d),
        0 < generation < d.next_generation,
    ensures
        d.launching(child).started(d.next_generation, process).has_ended(generation),
        d.process is Some ==> d.stopped().has_ended(generation),
        d.process is Some ==> d.launching(child).has_ended(generation),
        d.closing().has_ended(generation),
        d.shut_down().has_ended(generation),
{
}

/// The activities of a process that was just started go on.
pub proof fn law_new_activities_run<P>(d: DownloaderView<P>, child: ChildState, process: P)
    ensures
        !d.launching(child).started(d.next_generation, process).has_ended(d.next_generation),
{
}

/// Idle shutdown only happens when there are no tracked downloads, and only to
/// the process that the watcher was started for; no download is failed by it.
pub proof fn law_idle_stop_spares_downloads<P>(
    d: DownloaderView<P>,
    generation: u64,
    event: IdleEvent,
)
    requires
        idle_step(d, generation, event) is Stopped,
    ensures
        d.tasks.is_idle(),
        d.active_generation == generation,
        event is TimedOut,
        d.stopped().tasks == d.tasks,
        coherent(d) && generation != 0 ==> d.process is Some && d.stopped().process is None,
{
}

/// A process that has nothing to do when the countdown runs out is stopped.
pub proof fn law_idle_stop_happens<P>(d: DownloaderView<P>, generation: u64)
    requires
        d.tasks.is_idle(),
        d.active_generation == generation,
    ensures
        idle_step(d, generation, IdleEvent::TimedOut) == IdleStep::Stopped(d.process),
        idle_expired(d, generation, IdleEvent::TimedOut),
        d.stopped().process is None,
{
}

/// While downloads are tracked the watcher waits for activity, whatever woke
/// it, unless it has to end.
pub proof fn law_busy_watcher_waits<P>(d: DownloaderView<P>, generation: u64, event: IdleEvent)
    requires
        !d.tasks.is_idle(),
        !d.has_ended(generation),
        !(event is Shutdown),
    ensures
        idle_step(d, generation, event) is AwaitActivity,
{
}

/// Shutdown leaves no process and no download in flight: each download that
/// was tracked was told that it failed, as its last report.
pub proof fn law_shutdown_fails_downloads<P>(d: DownloaderView<P>)
    ensures
        d.shut_down().shutdown,
        d.shut_down().process is None,
        d.shut_down().tasks.is_idle(),
        forall|gid: Seq<char>| #[trigger]
            d.tasks.tracks(gid) ==> {
                &&& d.shut_down().tasks.closed.contains_key(gid)
                &&& d.shut_down().tasks.closed[gid] == d.tasks.live[gid].after(
                    ProgressView::failed(gid, stop_message()),
                )
            },
{
}

/// If the process exits unexpectedly, the next submission fails the downloads
/// that were tracked and starts over with nothing tracked.
pub proof fn law_exit_fails_downloads<P>(d: DownloaderView<P>, child: ChildState)
    requires
        d.process is Some,
        !d.is_alive(child),
    ensures
        d.launching(child).process is None,
        d.launching(child).tasks.is_idle(),
        !d.launching(child).shutdown,
        forall|gid: Seq<char>| #[trigger]
            d.tasks.tracks(gid) ==> {
                &&& d.launching(child).tasks.closed.contains_key(gid)
                &&& d.launching(child).tasks.closed[gid] == d.tasks.live[gid].after(
                    ProgressView::failed(gid, loss_message(child)),
                )
            },
{
}

/// The client that is made for a process presents the secret that the process
/// was started with, on the port that it listens on.
pub proof fn law_client_matches_server(
    launch: Launch,
    generation: u64,
    settings: Settings,
    nanos: u128,
)
    requires
        is_launch_for(launch, generation, settings, nanos),
    ensures
        exists|secret: Seq<char>|
            {
                &&& texts(launch.args@)[2] == "--rpc-secret="@ + secret
                &&& launch.connection.token matches Some(token)
                &&& token@ == #[trigger] rpc_token(secret)
            },
        texts(launch.args@)[1] == "--rpc-listen-port="@ + decimal(settings.rpc_port as nat),
        launch.connection.url@ == rpc_url(settings.rpc_port),
{
}

/// Each history starts with the pending report and speaks of its own download
/// only.
pub open spec fn well_kept(t: TaskTableView) -> bool {
    &&& forall|gid: Seq<char>| #[trigger] t.live.contains_key(gid) ==> is_history_of(gid, t.live[gid])
    &&& forall|gid: Seq<char>| #[trigger]
        t.closed.contains_key(gid) ==> is_history_of(gid, t.closed[gid])
}

/// `line` is what the channel of `gid` may have been given.
pub open spec fn is_history_of(gid: Seq<char>, line: Line) -> bool {
    &&& line.told.len() > 0
    &&& line.told[0] == ProgressView::pending(gid)
    &&& forall|i: int| 0 <= i < line.told.len() ==> (#[trigger] line.told[i]).gid == gid
}

proof fn lemma_history_push(gid: Seq<char>, line: Line, report: ProgressView)
    requires
        is_history_of(gid, line),
        report.gid == gid,
    ensures
        is_history_of(gid, line.after(report)),
{
}

/// Every report that a channel is given is about its own download, and the
/// first one says that it is pending.
pub proof fn law_histories_well_kept(
    t: TaskTableView,
    gid: Seq<char>,
    report: ProgressView,
    gids: Set<Seq<char>>,
    message: Seq<char>,
)
    requires
        well_kept(t),
        report.gid == gid,
    ensures
        well_kept(TaskTableView::empty()),
        forall|channel: watch::Sender<DownloadProgress>|
            well_kept(#[trigger] t.opened(gid, channel)),
        well_kept(t.told(gid, report)),
        well_kept(t.without(gids)),
        well_kept(t.all_failed(message)),
{
    assert forall|g: Seq<char>| #[trigger] t.told(gid, report).live.contains_key(g) implies is_history_of(
        g,
        t.told(gid, report).live[g],
    ) by {
        if g == gid {
            lemma_history_push(g, t.live[g], report);
        }
    }
    assert forall|g: Seq<char>| #[trigger]
        t.all_failed(message).closed.contains_key(g) implies is_history_of(
        g,
        t.all_failed(message).closed[g],
    ) by {
        if t.live.contains_key(g) {
            lemma_history_push(g, t.live[g], ProgressView::failed(g, message));
        }
    }
}

/// The report that a status query yields is about the download that was
/// queried, whatever the reply.
pub proof fn law_answer_is_about_its_download(gid: Seq<char>, reply: Result<Status, String>)
    ensures
        answer(gid, reply).gid == gid,
{
}

/// No channel was closed before it was told how its download ended.
pub open spec fn settled(t: TaskTableView) -> bool {
    forall|gid: Seq<char>| #[trigger] t.closed.contains_key(gid) ==> ends(t.closed[gid])
}

/// The last report of `line` is one that a download never leaves.
pub open spec fn ends(line: Line) -> bool {
    line.told.len() > 0 && line.told.last().finished()
}

/// Nobody is left waiting: as long as aria2 gives every download a GID of its
/// own, and only downloads that were told of their end are dropped, each
/// channel that closes was told how its download ended.
pub proof fn law_settled_always(
    t: TaskTableView,
    gid: Seq<char>,
    report: ProgressView,
    gids: Set<Seq<char>>,
    message: Seq<char>,
)
    requires
        settled(t),
    ensures
        settled(TaskTableView::empty()),
        forall|channel: watch::Sender<DownloadProgress>|
            !t.tracks(gid) ==> settled(#[trigger] t.opened(gid, channel)),
        settled(t.told(gid, report)),
        settled(t.all_failed(message)),
        (forall|g: Seq<char>| #[trigger] gids.contains(g) && t.tracks(g) ==> ends(t.live[g]))
            ==> settled(t.without(gids)),
{
}

/// A round of the poller is in order: no download is queried twice, none that
/// has ended is queried again, and those that have ended were told so.
pub open spec fn round_in_order(p: PollerView, t: TaskTableView) -> bool {
    &&& p.pending.no_duplicates()
    &&& forall|gid: Seq<char>| #[trigger] p.finished.contains(gid) ==> !p.pending.contains(gid)
    &&& forall|gid: Seq<char>| #[trigger]
        p.finished.contains(gid) && t.tracks(gid) ==> ends(t.live[gid])
}

/// A round starts in order.
pub proof fn law_round_starts_in_order(p: PollerView, t: TaskTableView)
    requires
        p.starts_round(t.live.dom()),
    ensures
        round_in_order(p, t),
{
}

/// What others do during a round leaves it in order: tracking a download that
/// the round has not seen, telling one that the round has not found to have
/// ended, letting go of any, and failing all of them.
pub proof fn law_round_stays_in_order(
    p: PollerView,
    t: TaskTableView,
    gid: Seq<char>,
    report: ProgressView,
    gids: Set<Seq<char>>,
    message: Seq<char>,
)
    requires
        round_in_order(p, t),
        !p.finished.contains(gid),
    ensures
        forall|channel: watch::Sender<DownloadProgress>|
            round_in_order(p, #[trigger] t.opened(gid, channel)),
        round_in_order(p, t.told(gid, report)),
        round_in_order(p, t.without(gids)),
        round_in_order(p, t.all_failed(message)),
{
}

/// Each reply keeps the round in order, and leaves no channel closed that was
/// not told how its download ended.
pub proof fn law_reply_keeps_order<P>(
    d: DownloaderView<P>,
    p: PollerView,
    reply: Result<Status, String>,
)
    requires
        settled(d.tasks),
        round_in_order(p, d.tasks),
    ensures
        settled(downloader_after(d, p, reply).tasks),
        round_in_order(poller_after(p, reply), downloader_after(d, p, reply).tasks),
{
    if p.pending.len() > 0 {
        let gid = p.pending.last();
        let report = answer(gid, reply);
        let on = p.answered(report);
        let told = d.tasks.told(gid, report);
        assert forall|g: Seq<char>| #[trigger] on.finished.contains(g) implies !on.pending.contains(
            g,
        ) && (told.tracks(g) ==> ends(told.live[g])) by {
            if !p.finished.contains(g) {
                assert(on.finished.last() == g);
            }
            if on.pending.contains(g) {
                assert(p.pending.contains(g));
            }
        }
        law_settled_always(d.tasks, gid, report, Set::empty(), Seq::empty());
        if on.pending.len() == 0 && on.finished.len() > 0 {
            law_settled_always(told, gid, report, on.finished.to_set(), Seq::empty());
        }
    }
}

/// The last reply of a round takes exactly the downloads that have ended out of
/// the table; before that, none leaves it.
pub proof fn law_round_retires_what_ended<P>(
    d: DownloaderView<P>,
    p: PollerView,
    reply: Result<Status, String>,
    gid: Seq<char>,
)
    requires
        p.pending.len() > 0,
    ensures
        p.pending.len() > 1 ==> (downloader_after(d, p, reply).tasks.tracks(gid)
            <==> d.tasks.tracks(gid)),
        p.pending.len() == 1 ==> (downloader_after(d, p, reply).tasks.tracks(gid)
            <==> d.tasks.tracks(gid) && !p.answered(
            answer(p.pending.last(), reply),
        ).finished.contains(gid)),
{
}

/// A cancelled download resolves as removed: when the status query finds that
/// aria2 has removed it, a wait that takes in that report succeeds with it. With
/// the last reply of a round it is also the last report of all, so a wait that
/// finds the channel closed takes it in.
pub proof fn law_cancelled_download_resolves_as_removed<P>(
    d: DownloaderView<P>,
    p: PollerView,
    st: Status,
    rx: watch::Receiver<DownloadProgress>,
    handle: HandleView,
    next: HandleView,
    latest: DownloadProgress,
    step: WaitStep,
)
    requires
        p.pending.len() > 0,
        d.tasks.tracks(p.pending.last()),
        d.tasks.live[p.pending.last()].reaches(rx),
        downloader_after(d, p, Ok(st)).tasks.kept(),
        st.status == Some(TaskStatus::Removed),
        handle.course == course(rx),
        handle.reads(next),
        latest@ == next.seen(),
        is_wait_step(step, latest, next.sealed),
        next.marked == d.tasks.live[p.pending.last()].told.len() || (p.pending.len() == 1
            && next.sealed),
    ensures
        step matches WaitStep::Done(Ok(r)) && r@ == reported(p.pending.last(), st) && r.status
            == DownloadStatus::Removed && r@.gid == p.pending.last(),
{
    let gid = p.pending.last();
    let report = answer(gid, Ok(st));
    let told = d.tasks.live[gid].after(report);
    let after = downloader_after(d, p, Ok(st)).tasks;
    let finished = p.answered(report).finished;
    assert(finished.last() == gid);
    assert(told.reaches(rx));
    if p.pending.len() == 1 {
        assert(after.closed.contains_key(gid) && after.closed[gid] == told);
    } else {
        assert(after.live.contains_key(gid) && after.live[gid] == told);
    }
    assert(told.told[d.tasks.live[gid].told.len() as int] == report);
}

/// A round ends: each reply leaves one download less to query.
pub proof fn law_round_ends(p: PollerView, reply: Result<Status, String>)
    requires
        p.pending.len() > 0,
    ensures
        poller_after(p, reply).pending.len() == p.pending.len() - 1,
        p.pending.len() == 1 ==> poller_after(p, reply) == p.resting(),
{
}

/// What a tracked download is told reaches its handle: the channel that the
/// handle receives from gets the report next.
pub proof fn law_report_reaches_handle<P>(
    d: DownloaderView<P>,
    gid: Seq<char>,
    report: ProgressView,
    rx: watch::Receiver<DownloadProgress>,
)
    requires
        d.tasks.tracks(gid),
        d.tasks.live[gid].reaches(rx),
        d.told(gid, report).tasks.kept(),
    ensures
        d.told(gid, report).tasks.live[gid].told == d.tasks.live[gid].told.push(report),
        d.tasks.live[gid].told.len() < course(rx).len(),
        course(rx)[d.tasks.live[gid].told.len() as int] == report,
{
    let line = d.told(gid, report).tasks.live[gid];
    assert(d.told(gid, report).tasks.live.contains_key(gid));
    assert(line.reaches(rx));
    assert(line.told[d.tasks.live[gid].told.len() as int] == report);
}

/// When every download is failed, each handle gets the failure as the last
/// report of all, after what its download was told before.
pub proof fn law_failure_reaches_handle<P>(
    d: DownloaderView<P>,
    message: Seq<char>,
    gid: Seq<char>,
    rx: watch::Receiver<DownloadProgress>,
)
    requires
        d.tasks.tracks(gid),
        d.tasks.live[gid].reaches(rx),
        d.tasks_failed(message).tasks.kept(),
    ensures
        course(rx) == d.tasks.live[gid].told.push(ProgressView::failed(gid, message)),
        course(rx).last() == ProgressView::failed(gid, message),
{
    let after = d.tasks_failed(message).tasks;
    assert(after.closed.contains_key(gid));
    assert(after.closed[gid].reaches(rx));
}

/// The last report is delivered once and not lost, and nothing follows it. Once
/// a download was failed and the handle has taken in the last report, which it
/// has if it found the channel closed, that report is the failure. Asked again,
/// the handle answers that the channel is closed, as soon as it finds it so,
/// and never with another report; and what it shows stays the failure.
pub proof fn law_failure_is_delivered_once<P>(
    d: DownloaderView<P>,
    message: Seq<char>,
    gid: Seq<char>,
    rx: watch::Receiver<DownloadProgress>,
    handle: HandleView,
    once: HandleView,
    twice: HandleView,
    first: WaitStep,
    second: WaitStep,
)
    requires
        d.tasks.tracks(gid),
        d.tasks.live[gid].reaches(rx),
        d.tasks_failed(message).tasks.kept(),
        handle.course == course(rx),
        handle.reads(once),
        once.sealed || once.marked + 1 == once.course.len(),
        is_changed_step(first, handle, once),
        once.reads(twice),
        is_changed_step(second, once, twice),
    ensures
        handle.marked + 1 < handle.course.len() ==> (first matches WaitStep::Done(Ok(p)) && p@
            == ProgressView::failed(gid, message)),
        once.seen() == ProgressView::failed(gid, message),
        once.sealed ==> twice.sealed,
        twice.sealed ==> second == WaitStep::Done(Err(Error::ChannelClosed)),
        !twice.sealed ==> second is Await,
        twice == (HandleView { looks: twice.looks, sealed: twice.sealed, ..once }),
        forall|report: ProgressView| #[trigger]
            twice.may_show(report) ==> report == ProgressView::failed(gid, message),
{
    law_failure_reaches_handle(d, message, gid, rx);
}

/// After the last report of a channel there is no further one: whoever asks for
/// the next one waits, or is told that the channel is closed.
pub proof fn law_nothing_follows_the_last_report(
    handle: HandleView,
    next: HandleView,
    step: WaitStep,
)
    requires
        handle.marked + 1 == handle.course.len(),
        handle.reads(next),
        is_changed_step(step, handle, next),
    ensures
        next.marked == handle.marked,
        step is Await || step == WaitStep::Done(Err(Error::ChannelClosed)),
{
}

/// In every state of a handle, what it shows is about its own download, and no
/// report that it may show now was older than the one it took in before.
pub proof fn law_handle_shows_its_download(
    handle: HandleView,
    next: HandleView,
    report: ProgressView,
)
    requires
        handle.valid(),
        handle.reads(next),
        next.may_show(report),
    ensures
        next.valid(),
        next.seen().gid == handle.gid,
        report.gid == handle.gid,
        handle.may_show(report),
        handle.course.skip(handle.marked as int).contains(next.seen()),
{
    let i = choose|i: int|
        0 <= i < next.course.skip(next.marked as int).len() && next.course.skip(
            next.marked as int,
        )[i] == report;
    let newer = handle.course.skip(handle.marked as int);
    assert(newer[i + next.marked - handle.marked] == report);
    assert(newer[next.marked - handle.marked] == next.seen());
}

/// Showing a report does not take it in: on a channel that was found closed, the
/// report that is shown is the one that the handle takes in next, if it was not
/// seen yet, and what it keeps showing.
pub proof fn law_snapshot_is_not_taken_in(
    handle: HandleView,
    report: ProgressView,
    next: HandleView,
    step: WaitStep,
)
    requires
        handle.valid(),
        handle.sealed,
        handle.may_show(report),
        handle.reads(next),
        is_changed_step(step, handle, next),
    ensures
        next.seen() == report,
        next.may_show(report),
        handle.marked + 1 < handle.course.len() ==> (step matches WaitStep::Done(Ok(p)) && p@
            == report),
{
    assert(next.course.skip(next.marked as int)[0] == report);
}

/// Waiting for a download whose channel has closed comes to an end, with what
/// the last report that the download was told means.
pub proof fn law_wait_ends(
    t: TaskTableView,
    gid: Seq<char>,
    rx: watch::Receiver<DownloadProgress>,
    handle: HandleView,
    next: HandleView,
    latest: DownloadProgress,
    step: WaitStep,
)
    requires
        settled(t),
        t.kept(),
        t.closed.contains_key(gid),
        t.closed[gid].reaches(rx),
        handle.course == course(rx),
        handle.reads(next),
        next.sealed,
        latest@ == next.seen(),
        is_wait_step(step, latest, next.sealed),
    ensures
        latest@ == t.closed[gid].told.last(),
        step matches WaitStep::Done(result) && is_finish_of(result, latest),
{
}

/// Waiting succeeds only for a download that has ended, and not in aria2's error
/// state.
pub proof fn law_wait_success_means_ended(latest: DownloadProgress, closed: bool, step: WaitStep)
    requires
        is_wait_step(step, latest, closed),
    ensures
        step matches WaitStep::Done(Ok(p)) ==> p@.finished() && p.status != DownloadStatus::Error
            && p == latest,
        closed && !latest@.finished() ==> step == WaitStep::Done(Err(Error::ChannelClosed)),
{
}

/// Waiting for a download that was given up, because its process was stopped
/// or lost, fails with the message that it was told.
pub proof fn law_wait_fails_with_message(
    gid: Seq<char>,
    message: Seq<char>,
    latest: DownloadProgress,
    closed: bool,
    step: WaitStep,
)
    requires
        latest@ == ProgressView::failed(gid, message),
        is_wait_step(step, latest, closed),
    ensures
        step matches WaitStep::Done(Err(Error::DownloadFailed { gid: g, message: m })) && g@ == gid
            && m@ == message,
{
}

/// What waiting for a download gives for each state that aria2 reports: a
/// download that ended in aria2's error state fails, a cancelled one resolves
/// as removed, a complete one as complete, and for any other state the wait
/// goes on.
pub proof fn law_wait_outcomes(
    gid: Seq<char>,
    st: Status,
    latest: DownloadProgress,
    step: WaitStep,
)
    requires
        latest@ == reported(gid, st),
        is_wait_step(step, latest, false),
    ensures
        st.status == Some(TaskStatus::Error) ==> (step matches WaitStep::Done(
            Err(Error::DownloadFailed { gid: g, message }),
        ) && g@ == gid && message@ == latest@.failure_text()),
        st.status == Some(TaskStatus::Removed) ==> (step matches WaitStep::Done(Ok(p)) && p == latest
            && p.status == DownloadStatus::Removed),
        st.status == Some(TaskStatus::Complete) ==> (step matches WaitStep::Done(Ok(p)) && p
            == latest && p.status == DownloadStatus::Complete),
        st.status != Some(TaskStatus::Error) && st.status != Some(TaskStatus::Removed) && st.status
            != Some(TaskStatus::Complete) ==> step is Await,
{
}

} // verus!
