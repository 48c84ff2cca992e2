//! The table of the downloads that are being tracked.

use crate::channel::{is_handle_on, open_channel, DownloadHandle, Line, ProgressSender};
use crate::progress::{DownloadProgress, ProgressView};
use crate::text::texts;
use tokio::sync::watch;
use vstd::prelude::*;

verus! {

/// The progress channels of some downloads, with what they were given, by GID.
pub type Histories = Map<Seq<char>, Line>;

/// What each of the channels was given is all that its receivers get.
pub open spec fn all_complete(histories: Histories) -> bool {
    forall|gid: Seq<char>| #[trigger]
        histories.contains_key(gid) ==> histories[gid].is_complete()
}

/// The contents of a [`TaskTable`].
pub struct TaskTableView {
    /// The tracked downloads, each with its channel and all that it was given.
    pub live: Histories,
    /// The downloads that are no longer tracked, likewise.
    pub closed: Histories,
}

impl TaskTableView {
    /// A table that never tracked anything.
    pub open spec fn empty() -> TaskTableView {
        TaskTableView { live: Map::empty(), closed: Map::empty() }
    }

    /// Whether `gid` is tracked.
    pub open spec fn tracks(self, gid: Seq<char>) -> bool {
        self.live.contains_key(gid)
    }

    /// Whether nothing is tracked.
    pub open spec fn is_idle(self) -> bool {
        forall|gid: Seq<char>| !self.tracks(gid)
    }

    /// The table once `gid` is tracked, with a new `channel`. A channel that
    /// `gid` already had is closed as it stands.
    pub open spec fn opened(
        self,
        gid: Seq<char>,
        channel: watch::Sender<DownloadProgress>,
    ) -> TaskTableView {
        TaskTableView {
            live: self.live.insert(gid, Line::fresh(gid, channel)),
            closed: if self.tracks(gid) {
                self.closed.insert(gid, self.live[gid])
            } else {
                self.closed
            },
        }
    }

    /// The table once `gid` was told `report`; a download that is not tracked
    /// is told nothing.
    pub open spec fn told(self, gid: Seq<char>, report: ProgressView) -> TaskTableView {
        if self.tracks(gid) {
            TaskTableView { live: self.live.insert(gid, self.live[gid].after(report)), ..self }
        } else {
            self
        }
    }

    /// The table once none of `gids` is tracked any more.
    pub open spec fn without(self, gids: Set<Seq<char>>) -> TaskTableView {
        TaskTableView {
            live: self.live.remove_keys(gids),
            closed: self.closed.union_prefer_right(self.live.restrict(gids)),
        }
    }

    /// What the channel of each tracked download was given once they all fail
    /// with `message`.
    pub open spec fn failures(self, message: Seq<char>) -> Histories {
        Map::new(
            |gid: Seq<char>| self.tracks(gid),
            |gid: Seq<char>| self.live[gid].after(ProgressView::failed(gid, message)),
        )
    }

    /// The table once every tracked download was told that it failed with
    /// `message`, after which none is tracked.
    pub open spec fn all_failed(self, message: Seq<char>) -> TaskTableView {
        TaskTableView {
            live: Map::empty(),
            closed: self.closed.union_prefer_right(self.failures(message)),
        }
    }

    /// Whoever receives from a download's channel gets what the download was
    /// told; once it is no longer tracked, exactly that.
    pub open spec fn kept(self) -> bool {
        &&& forall|gid: Seq<char>| #[trigger]
            self.live.contains_key(gid) ==> self.live[gid].is_kept()
        &&& all_complete(self.closed)
    }
}

/// The position of the channel of `gid`.
spec fn position_of(senders: Seq<ProgressSender>, gid: Seq<char>) -> int {
    choose|i: int| 0 <= i < senders.len() && (#[trigger] senders[i]).gid_text() == gid
}

/// The channels by GID.
spec fn by_gid(senders: Seq<ProgressSender>) -> Histories {
    Map::new(
        |gid: Seq<char>|
            exists|i: int| 0 <= i < senders.len() && (#[trigger] senders[i]).gid_text() == gid,
        |gid: Seq<char>| senders[position_of(senders, gid)].line(),
    )
}

/// No two channels are for the same download.
spec fn distinct(senders: Seq<ProgressSender>) -> bool {
    forall|i: int, j: int|
        0 <= i < j < senders.len() ==> (#[trigger] senders[i]).gid_text() != (
        #[trigger] senders[j]).gid_text()
}

/// Every channel is for reports on its own download.
spec fn all_wf(senders: Seq<ProgressSender>) -> bool {
    forall|i: int| 0 <= i < senders.len() ==> (#[trigger] senders[i]).wf()
}

/// Every channel is found under its GID.
proof fn lemma_by_gid(senders: Seq<ProgressSender>)
    requires
        distinct(senders),
    ensures
        forall|i: int|
            0 <= i < senders.len() ==> by_gid(senders).contains_key(
                (#[trigger] senders[i]).gid_text(),
            ) && by_gid(senders)[senders[i].gid_text()] == senders[i].line(),
{
}

/// The tracked downloads, each with the sending half of its progress channel.
/// A GID occurs at most once, and each channel is for its own download.
pub struct TaskTable {
    senders: Vec<ProgressSender>,
    closed: Ghost<Histories>,
}

impl View for TaskTable {
    type V = TaskTableView;

    closed spec fn view(&self) -> TaskTableView {
        TaskTableView { live: by_gid(self.senders@), closed: self.closed@ }
    }
}

impl TaskTable {
    /// No GID occurs twice, and each channel is for its own download.
    pub closed spec fn in_order(self) -> bool {
        distinct(self.senders@) && all_wf(self.senders@)
    }

    /// The table is in order, and what it says of its channels is what their
    /// receivers get.
    pub open spec fn wf(self) -> bool {
        self.in_order() && self@.kept()
    }

    /// A table in order whose closed channels are complete says of its channels
    /// what their receivers get.
    proof fn lemma_kept(self)
        requires
            self.in_order(),
            all_complete(self.closed@),
        ensures
            self.wf(),
    {
        lemma_by_gid(self.senders@);
        assert forall|gid: Seq<char>| #[trigger] self@.live.contains_key(gid) implies self@.live[gid].is_kept() by {
            let p = position_of(self.senders@, gid);
            self.senders@[p].lemma_is_kept();
        }
    }

    /// A table that tracks nothing.
    pub fn new() -> (table: TaskTable)
        ensures
            table.wf(),
            table@ == TaskTableView::empty(),
    {
        let table = TaskTable { senders: Vec::new(), closed: Ghost(Map::empty()) };
        assert(table@.live =~= Map::empty());
        table
    }

    /// Whether nothing is tracked.
    pub fn is_empty(&self) -> (empty: bool)
        requires
            self.wf(),
        ensures
            empty == self@.is_idle(),
    {
        proof {
            lemma_by_gid(self.senders@);
            if self.senders@.len() > 0 {
                assert(self@.tracks(self.senders@[0].gid_text()));
            }
        }
        self.senders.len() == 0
    }

    /// The GIDs of the tracked downloads, each once, in no particular order.
    pub fn gids(&self) -> (gids: Vec<String>)
        requires
            self.wf(),
        ensures
            texts(gids@).no_duplicates(),
            texts(gids@).to_set() == self@.live.dom(),
    {
        let mut gids: Vec<String> = Vec::new();
        for i in 0..self.senders.len()
            invariant
                gids@.len() == i,
                forall|j: int|
                    0 <= j < i ==> (#[trigger] gids@[j])@ == self.senders@[j].gid_text(),
        {
            gids.push(self.senders[i].gid().clone());
        }
        proof {
            lemma_by_gid(self.senders@);
            let listed = texts(gids@);
            assert forall|gid: Seq<char>| listed.to_set().contains(gid) == self@.live.dom().contains(
                gid,
            ) by {
                if self@.live.dom().contains(gid) {
                    let p = position_of(self.senders@, gid);
                    assert(listed[p] == gid);
                }
            }
        }
        gids
    }

    /// Finds the channel of `gid`.
    fn position(&self, gid: &String) -> (found: Option<usize>)
        requires
            self.wf(),
        ensures
            match found {
                Some(p) => p < self.senders@.len() && self.senders@[p as int].gid_text() == gid@,
                None => !self@.tracks(gid@),
            },
    {
        for i in 0..self.senders.len()
            invariant
                forall|j: int|
                    0 <= j < i ==> (#[trigger] self.senders@[j]).gid_text() != gid@,
        {
            if self.senders[i].gid().eq(gid) {
                return Some(i);
            }
        }
        None
    }

    /// Tracks the download `gid` from now on, and returns the handle to it.
    pub fn open(&mut self, gid: String) -> (handle: DownloadHandle)
        requires
            old(self).wf(),
        ensures
            final(self).wf(),
            final(self)@ == old(self)@.opened(gid@, final(self)@.live[gid@].channel),
            is_handle_on(handle, gid@, final(self)@.live[gid@]),
    {
        self.close(&gid);
        let ghost before = self.senders@;
        let ghost name = gid@;
        let (sender, handle) = open_channel(gid);
        let ghost added = sender;
        self.senders.push(sender);
        proof {
            lemma_by_gid(before);
            lemma_push(before, added);
            let goal = old(self)@.opened(name, added.line().channel);
            assert(self@.live =~= goal.live);
            assert(self@.closed =~= goal.closed);
            self.lemma_kept();
        }
        handle
    }

    /// Tells the download `gid` how it stands, if it is tracked.
    pub fn publish(&mut self, gid: &String, progress: DownloadProgress)
        requires
            old(self).wf(),
            progress@.gid == gid@,
        ensures
            final(self).wf(),
            final(self)@ == old(self)@.told(gid@, progress@),
    {
        let ghost before = self.senders@;
        let ghost report = progress@;
        if let Some(p) = self.position(gid) {
            self.senders[p].send(progress);
            proof {
                let after = self.senders@;
                lemma_by_gid(before);
                lemma_by_gid(after);
                let goal = by_gid(before).insert(gid@, by_gid(before)[gid@].after(report));
                assert forall|g: Seq<char>| #[trigger]
                    by_gid(after).contains_key(g) == goal.contains_key(g) by {
                    if by_gid(before).contains_key(g) {
                        let q = position_of(before, g);
                        assert(after[q].gid_text() == g);
                    }
                }
                assert(by_gid(after) =~= goal);
                self.lemma_kept();
            }
        }
    }

    /// Stops tracking `gid`, if it is tracked. Its channel closes.
    fn close(&mut self, gid: &String)
        requires
            old(self).wf(),
        ensures
            final(self).wf(),
            final(self)@ == old(self)@.without(set![gid@]),
    {
        let ghost before = self.senders@;
        match self.position(gid) {
            Some(p) => {
                let Ghost(record) = self.senders.swap_remove(p).close();
                self.closed = Ghost(self.closed@.insert(gid@, record));
                proof {
                    lemma_by_gid(before);
                    lemma_swap_remove(before, p as int);
                    assert(self@.live =~= old(self)@.live.remove_keys(set![gid@]));
                    assert(self@.closed =~= old(self)@.without(set![gid@]).closed);
                    self.lemma_kept();
                }
            },
            None => {
                assert(self@.live =~= old(self)@.without(set![gid@]).live);
                assert(self@.closed =~= old(self)@.without(set![gid@]).closed);
            },
        }
    }

    /// Stops tracking each of `gids` that is tracked. Their channels close.
    pub fn remove(&mut self, gids: &Vec<String>)
        requires
            old(self).wf(),
        ensures
            final(self).wf(),
            final(self)@ == old(self)@.without(texts(gids@).to_set()),
    {
        let ghost names = texts(gids@);
        let ghost start = self@;
        proof {
            assert(start.without(names.take(0).to_set()).live =~= start.live);
            assert(start.without(names.take(0).to_set()).closed =~= start.closed);
        }
        for i in 0..gids.len()
            invariant
                self.wf(),
                names == texts(gids@),
                self@ == start.without(names.take(i as int).to_set()),
        {
            self.close(&gids[i]);
            proof {
                let next = names.take(i + 1).to_set();
                lemma_take_to_set(names, i as int);
                assert(self@.live =~= start.without(next).live);
                assert(self@.closed =~= start.without(next).closed);
            }
        }
        assert(names.take(gids.len() as int) =~= names);
    }

    /// Tells every tracked download that it failed with `message`, and stops
    /// tracking it. All their channels close.
    pub fn fail_all(&mut self, message: &str)
        requires
            old(self).wf(),
        ensures
            final(self).wf(),
            final(self)@ == old(self)@.all_failed(message@),
    {
        let ghost start = self@;
        let ghost all = self.senders@;
        proof {
            lemma_by_gid(all);
        }
        let ghost failures = start.failures(message@);
        while self.senders.len() > 0
            invariant
                distinct(all),
                all_wf(all),
                all_complete(self.closed@),
                start.live == by_gid(all),
                failures == start.failures(message@),
                self.senders@.len() <= all.len(),
                self.senders@ == all.take(self.senders@.len() as int),
                forall|i: int|
                    0 <= i < all.len() ==> start.tracks((#[trigger] all[i]).gid_text())
                        && start.live[all[i].gid_text()] == all[i].line(),
                forall|g: Seq<char>| #[trigger]
                    self.closed@.contains_key(g) <==> start.closed.contains_key(g) || exists|i: int|
                        self.senders@.len() <= i < all.len() && (#[trigger] all[i]).gid_text() == g,
                forall|i: int|
                    self.senders@.len() <= i < all.len() ==> self.closed@[(
                    #[trigger] all[i]).gid_text()] == failures[all[i].gid_text()],
                forall|g: Seq<char>|
                    start.closed.contains_key(g) && (forall|i: int|
                        self.senders@.len() <= i < all.len() ==> (#[trigger] all[i]).gid_text()
                            != g) ==> #[trigger] self.closed@[g] == start.closed[g],
            decreases self.senders@.len(),
        {
            let ghost n = self.senders@.len() - 1;
            let ghost before = self.closed@;
            if let Some(mut sender) = self.senders.pop() {
                let gid = sender.gid().clone();
                sender.send(DownloadProgress::failed(gid, message.to_owned()));
                let ghost name = sender.gid_text();
                let Ghost(record) = sender.close();
                self.closed = Ghost(self.closed@.insert(name, record));
                proof {
                    let name = all[n].gid_text();
                    assert forall|g: Seq<char>| #[trigger]
                        self.closed@.contains_key(g) <==> start.closed.contains_key(g)
                            || exists|i: int|
                            n <= i < all.len() && (#[trigger] all[i]).gid_text() == g by {
                        assert(self.closed@.contains_key(g) == (before.contains_key(g) || g
                            == name));
                    }
                }
            }
        }
        proof {
            assert(self@.live =~= Map::empty());
            let goal = start.closed.union_prefer_right(failures);
            assert(self.closed@ =~= goal);
            self.lemma_kept();
        }
    }
}

/// One more element of a sequence is one more of its set.
proof fn lemma_take_to_set(names: Seq<Seq<char>>, i: int)
    requires
        0 <= i < names.len(),
    ensures
        names.take(i + 1).to_set() == names.take(i).to_set().insert(names[i]),
{
    let shorter = names.take(i);
    let longer = names.take(i + 1);
    assert forall|g: Seq<char>| longer.to_set().contains(g) == shorter.to_set().insert(
        names[i],
    ).contains(g) by {
        if g == names[i] {
            assert(longer[i] == g);
        }
    }
}

/// A channel that is added is found under its GID, and the others as before.
proof fn lemma_push(senders: Seq<ProgressSender>, added: ProgressSender)
    requires
        distinct(senders.push(added)),
    ensures
        by_gid(senders.push(added)) == by_gid(senders).insert(added.gid_text(), added.line()),
{
    let after = senders.push(added);
    let name = added.gid_text();
    assert(distinct(senders)) by {
        assert forall|i: int, j: int| 0 <= i < j < senders.len() implies (
        #[trigger] senders[i]).gid_text() != (#[trigger] senders[j]).gid_text() by {
            assert(after[i].gid_text() != after[j].gid_text());
        }
    }
    lemma_by_gid(senders);
    lemma_by_gid(after);
    assert(after[senders.len() as int] == added);
    assert forall|g: Seq<char>| by_gid(senders).contains_key(g) implies by_gid(after).contains_key(
        g,
    ) && g != name && by_gid(after)[g] == by_gid(senders)[g] by {
        let p = position_of(senders, g);
        assert(after[p].gid_text() != after[senders.len() as int].gid_text());
    }
}

/// Taking out one channel takes out its GID and leaves the others as they are.
proof fn lemma_swap_remove(senders: Seq<ProgressSender>, p: int)
    requires
        distinct(senders),
        0 <= p < senders.len(),
    ensures
        distinct(senders.update(p, senders.last()).drop_last()),
        by_gid(senders.update(p, senders.last()).drop_last()) == by_gid(senders).remove(
            senders[p].gid_text(),
        ),
{
    let after = senders.update(p, senders.last()).drop_last();
    let last = senders.len() - 1;
    let name = senders[p].gid_text();
    lemma_by_gid(senders);
    lemma_by_gid(after);
    assert forall|g: Seq<char>| by_gid(senders).contains_key(g) && g != name implies by_gid(
        after,
    ).contains_key(g) by {
        let q = position_of(senders, g);
        if q == last {
            assert(after[p] == senders[q]);
        } else {
            assert(after[q] == senders[q]);
        }
    }
}

} // verus!
