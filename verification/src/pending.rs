//! Pending-request table of the UDP client: the in-flight probes of one
//! session, keyed by sequence number, with the timeout sweep that evicts and
//! reports every overdue entry exactly once.

use vstd::prelude::*;

verus! {

/// Whether a probe sent at `sent_at_us` is overdue at `now_us` under
/// `timeout_us`: its age strictly exceeds the timeout.
pub open spec fn expired_spec(now_us: int, timeout_us: int, sent_at_us: int) -> bool {
    now_us > sent_at_us + timeout_us
}

/// The pending map after a sweep at `now_us`: only the entries that are not
/// overdue remain.
pub open spec fn swept_map(m: Map<u64, u64>, now_us: int, timeout_us: int) -> Map<u64, u64> {
    m.restrict(m.dom().filter(|k: u64| !expired_spec(now_us, timeout_us, m[k] as int)))
}

/// No two list entries share a sequence number.
pub open spec fn keys_unique(s: Seq<(u64, u64)>) -> bool {
    forall|i: int, j: int| 0 <= i < j < s.len() ==> (#[trigger] s[i]).0 != (#[trigger] s[j]).0
}

/// The map an entry list denotes.
pub open spec fn map_of(s: Seq<(u64, u64)>) -> Map<u64, u64>
    decreases s.len(),
{
    if s.len() == 0 {
        Map::empty()
    } else {
        map_of(s.drop_last()).insert(s.last().0, s.last().1)
    }
}

/// Every entry of a unique-keyed list is in its map, with its own value.
proof fn lemma_map_of_index(s: Seq<(u64, u64)>, i: int)
    requires
        keys_unique(s),
        0 <= i < s.len(),
    ensures
        map_of(s).contains_key(s[i].0),
        map_of(s)[s[i].0] == s[i].1,
    decreases s.len(),
{
    if i < s.len() - 1 {
        lemma_map_of_index(s.drop_last(), i);
    }
}

/// A key of the map comes from some entry of the list.
proof fn lemma_map_of_source(s: Seq<(u64, u64)>, k: u64)
    requires
        map_of(s).contains_key(k),
    ensures
        exists|i: int| 0 <= i < s.len() && (#[trigger] s[i]).0 == k,
    decreases s.len(),
{
    if s.len() > 0 {
        if s.last().0 == k {
            assert(s[s.len() - 1].0 == k);
        } else {
            lemma_map_of_source(s.drop_last(), k);
            let i = choose|i: int| 0 <= i < s.drop_last().len() && (#[trigger] s.drop_last()[i]).0
                == k;
            assert(s[i].0 == k);
        }
    }
}

/// Removing entry `i` from a unique-keyed list removes exactly its key from
/// the map.
proof fn lemma_map_of_remove(s: Seq<(u64, u64)>, i: int)
    requires
        keys_unique(s),
        0 <= i < s.len(),
    ensures
        keys_unique(s.remove(i)),
        map_of(s.remove(i)) == map_of(s).remove(s[i].0),
    decreases s.len(),
{
    let r = s.remove(i);
    assert forall|a: int, b: int| 0 <= a < b < r.len() implies (#[trigger] r[a]).0 != (
    #[trigger] r[b]).0 by {
        let a0 = if a < i {
            a
        } else {
            a + 1
        };
        let b0 = if b < i {
            b
        } else {
            b + 1
        };
        assert(r[a] == s[a0] && r[b] == s[b0]);
    }
    if i == s.len() - 1 {
        assert(r =~= s.drop_last());
        if map_of(s.drop_last()).contains_key(s[i].0) {
            lemma_map_of_source(s.drop_last(), s[i].0);
            let j = choose|j: int|
                0 <= j < s.drop_last().len() && (#[trigger] s.drop_last()[j]).0 == s[i].0;
            assert(s[j].0 == s[i].0);
            assert(false);
        }
        assert(map_of(r) =~= map_of(s).remove(s[i].0));
    } else {
        assert(r.drop_last() =~= s.drop_last().remove(i));
        lemma_map_of_remove(s.drop_last(), i);
        assert(map_of(r) == map_of(s.drop_last()).remove(s[i].0).insert(s.last().0, s.last().1));
        assert(s.last().0 != s[i].0);
        assert(map_of(s.drop_last()).remove(s[i].0).insert(s.last().0, s.last().1)
            =~= map_of(s.drop_last()).insert(s.last().0, s.last().1).remove(s[i].0));
    }
}

/// The in-flight probes of one UDP session: sequence number to monotonic
/// send instant (microseconds since session start). Entries leave on a
/// matching reply or on the timeout sweep, never twice.
pub struct PendingTable {
    entries: Vec<(u64, u64)>,
}

impl View for PendingTable {
    type V = Map<u64, u64>;

    closed spec fn view(&self) -> Map<u64, u64> {
        map_of(self.entries@)
    }
}

impl PendingTable {
    /// Invariant: one entry per sequence number.
    pub closed spec fn wf(self) -> bool {
        keys_unique(self.entries@)
    }

    /// An empty table.
    pub fn new() -> (r: Self)
        ensures
            r@ == Map::<u64, u64>::empty(),
            r.wf(),
    {
        PendingTable { entries: Vec::new() }
    }

    /// Register a freshly sent probe. The caller keeps sequence numbers
    /// fresh; the sessions use a strictly increasing counter.
    pub fn insert(&mut self, seq: u64, sent_at_us: u64)
        requires
            old(self).wf(),
            !old(self)@.contains_key(seq),
        ensures
            final(self).wf(),
            final(self)@ == old(self)@.insert(seq, sent_at_us),
    {
        proof {
            assert forall|j: int| 0 <= j < self.entries@.len() implies (#[trigger] self.entries@[j]).0
                != seq by {
                if self.entries@[j].0 == seq {
                    lemma_map_of_index(self.entries@, j);
                }
            }
        }
        self.entries.push((seq, sent_at_us));
        proof {
            assert(self.entries@.drop_last() =~= old(self).entries@);
        }
    }

    /// Resolve a reply: take the matching entry out and hand back its send
    /// instant; an unknown (already resolved, swept, or foreign) sequence
    /// number finds nothing and changes nothing.
    pub fn remove(&mut self, seq: u64) -> (r: Option<u64>)
        requires
            old(self).wf(),
        ensures
            final(self).wf(),
            final(self)@ == old(self)@.remove(seq),
            r == if old(self)@.contains_key(seq) {
                Some(old(self)@[seq])
            } else {
                None::<u64>
            },
    {
        let mut i: usize = 0;
        while i < self.entries.len()
            invariant
                self == old(self),
                old(self).wf(),
                i <= self.entries@.len(),
                forall|j: int| 0 <= j < i ==> (#[trigger] self.entries@[j]).0 != seq,
            decreases self.entries@.len() - i,
        {
            if self.entries[i].0 == seq {
                let v = self.entries[i].1;
                proof {
                    lemma_map_of_index(self.entries@, i as int);
                    lemma_map_of_remove(self.entries@, i as int);
                }
                self.entries.remove(i);
                return Some(v);
            }
            i = i + 1;
        }
        proof {
            if self@.contains_key(seq) {
                lemma_map_of_source(self.entries@, seq);
            }
            assert(self@.remove(seq) =~= self@);
        }
        None
    }

    /// Evict every overdue entry: each one leaves the table and is returned
    /// exactly once, with its send instant; the rest stay untouched.
    pub fn sweep(&mut self, now_us: u64, timeout_us: u64) -> (expired: Vec<(u64, u64)>)
        requires
            old(self).wf(),
        ensures
            final(self).wf(),
            final(self)@ == swept_map(old(self)@, now_us as int, timeout_us as int),
            forall|i: int|
                0 <= i < expired@.len() ==> old(self)@.contains_key((#[trigger] expired@[i]).0)
                    && old(self)@[expired@[i].0] == expired@[i].1 && expired_spec(
                    now_us as int,
                    timeout_us as int,
                    expired@[i].1 as int,
                ),
            forall|i: int, j: int|
                0 <= i < j < expired@.len() ==> (#[trigger] expired@[i]).0 != (
                #[trigger] expired@[j]).0,
            forall|k: u64|
                old(self)@.contains_key(k) && expired_spec(
                    now_us as int,
                    timeout_us as int,
                    old(self)@[k] as int,
                ) ==> exists|i: int| 0 <= i < expired@.len() && (#[trigger] expired@[i]).0 == k,
    {
        let ghost entries0 = self.entries@;
        let mut expired: Vec<(u64, u64)> = Vec::new();
        let ghost mut idxs: Seq<int> = Seq::empty();
        let mut i: usize = 0;
        while i < self.entries.len()
            invariant
                self == old(self),
                old(self).wf(),
                entries0 == self.entries@,
                i <= entries0.len(),
                idxs.len() == expired@.len(),
                forall|j: int|
                    0 <= j < idxs.len() ==> 0 <= #[trigger] idxs[j] < i && entries0[idxs[j]] == expired@[j],
                forall|j1: int, j2: int| 0 <= j1 < j2 < idxs.len() ==> idxs[j1] < idxs[j2],
                forall|j: int|
                    0 <= j < expired@.len() ==> expired_spec(
                        now_us as int,
                        timeout_us as int,
                        (#[trigger] expired@[j]).1 as int,
                    ),
                forall|idx: int|
                    0 <= idx < i && expired_spec(
                        now_us as int,
                        timeout_us as int,
                        (#[trigger] entries0[idx]).1 as int,
                    ) ==> exists|j: int| 0 <= j < idxs.len() && idxs[j] == idx,
            decreases entries0.len() - i,
        {
            let ghost idxs0 = idxs;
            let sent_at_us = self.entries[i].1;
            let overdue = now_us >= sent_at_us && now_us - sent_at_us > timeout_us;
            if overdue {
                expired.push((self.entries[i].0, sent_at_us));
                proof {
                    idxs = idxs.push(i as int);
                }
            }
            proof {
                assert(overdue == expired_spec(
                    now_us as int,
                    timeout_us as int,
                    entries0[i as int].1 as int,
                ));
                assert forall|idx: int|
                    0 <= idx < i + 1 && expired_spec(
                        now_us as int,
                        timeout_us as int,
                        (#[trigger] entries0[idx]).1 as int,
                    ) implies exists|j: int| 0 <= j < idxs.len() && idxs[j] == idx by {
                    if idx < i {
                        let j = choose|j: int| 0 <= j < idxs0.len() && idxs0[j] == idx;
                        assert(idxs[j] == idx);
                    } else {
                        assert(idxs[idxs.len() - 1] == idx);
                    }
                }
            }
            i = i + 1;
        }
        proof {
            assert forall|a: int, b: int| 0 <= a < b < expired@.len() implies (
            #[trigger] expired@[a]).0 != (#[trigger] expired@[b]).0 by {
                assert(expired@[a] == entries0[idxs[a]] && expired@[b] == entries0[idxs[b]]);
            }
            assert forall|j: int| 0 <= j < expired@.len() implies old(self)@.contains_key(
                (#[trigger] expired@[j]).0,
            ) && old(self)@[expired@[j].0] == expired@[j].1 && expired_spec(
                now_us as int,
                timeout_us as int,
                expired@[j].1 as int,
            ) by {
                lemma_map_of_index(entries0, idxs[j]);
            }
            assert forall|k: u64|
                old(self)@.contains_key(k) && expired_spec(
                    now_us as int,
                    timeout_us as int,
                    old(self)@[k] as int,
                ) implies exists|j: int| 0 <= j < expired@.len() && (#[trigger] expired@[j]).0
                == k by {
                lemma_map_of_source(entries0, k);
                let idx = choose|idx: int| 0 <= idx < entries0.len() && (#[trigger] entries0[idx]).0
                    == k;
                lemma_map_of_index(entries0, idx);
                let j = choose|j: int| 0 <= j < idxs.len() && idxs[j] == idx;
                assert(expired@[j].0 == k);
            }
        }
        let ghost pend0 = old(self)@;
        let mut j: usize = 0;
        while j < expired.len()
            invariant
                self.wf(),
                j <= expired@.len(),
                forall|a: int, b: int|
                    0 <= a < b < expired@.len() ==> (#[trigger] expired@[a]).0 != (
                    #[trigger] expired@[b]).0,
                forall|a: int|
                    0 <= a < expired@.len() ==> pend0.contains_key((#[trigger] expired@[a]).0),
                forall|k: u64| #[trigger]
                    self@.contains_key(k) <==> pend0.contains_key(k) && !(exists|a: int|
                        0 <= a < j && (#[trigger] expired@[a]).0 == k),
                forall|k: u64| self@.contains_key(k) ==> #[trigger] self@[k] == pend0[k],
            decreases expired@.len() - j,
        {
            self.remove(expired[j].0);
            j = j + 1;
        }
        proof {
            let swept = swept_map(pend0, now_us as int, timeout_us as int);
            assert forall|k: u64| #[trigger] self@.contains_key(k) <==> swept.contains_key(k) by {
                if pend0.contains_key(k) {
                    if expired_spec(now_us as int, timeout_us as int, pend0[k] as int) {
                        assert(exists|a: int|
                            0 <= a < expired@.len() && (#[trigger] expired@[a]).0 == k);
                    } else {
                        if exists|a: int| 0 <= a < expired@.len() && (#[trigger] expired@[a]).0
                            == k {
                            let a = choose|a: int|
                                0 <= a < expired@.len() && (#[trigger] expired@[a]).0 == k;
                            assert(expired_spec(
                                now_us as int,
                                timeout_us as int,
                                expired@[a].1 as int,
                            ));
                            assert(pend0[k] == expired@[a].1);
                        }
                    }
                }
            }
            assert(self@.dom() =~= swept.dom());
            assert(self@ =~= swept);
        }
        expired
    }
}

/// Law (timeout sweep): an entry that is overdue at a sweep leaves the table
/// there, so a reply arriving right after the sweep finds nothing to resolve,
/// and no later sweep can report the same entry again.
pub proof fn lemma_swept_once(
    m: Map<u64, u64>,
    now_us: int,
    timeout_us: int,
    seq: u64,
    later_us: int,
)
    requires
        m.contains_key(seq),
        expired_spec(now_us, timeout_us, m[seq] as int),
    ensures
        !swept_map(m, now_us, timeout_us).contains_key(seq),
        !swept_map(swept_map(m, now_us, timeout_us), later_us, timeout_us).contains_key(seq),
{
}

} // verus!
