use vstd::prelude::*;

use crate::session::SessionSource;

verus! {

/// One live session in the cache: its source, the number it was opened
/// under, and the caller's handle to it (the producer end of its queue).
pub struct CacheEntry<H> {
    pub source: SessionSource,
    pub id: u64,
    pub handle: H,
}

/// The sessions that are live, keyed by source, with at most one per source.
/// Each session gets a number when it enters the cache; numbers are never
/// handed out twice, so a session opened after an eviction is told apart from
/// the one before it.
pub struct SessionCache<H> {
    entries: Vec<CacheEntry<H>>,
    next_id: u64,
    model: Ghost<Map<SessionSource, (u64, H)>>,
}

/// The cache after the session numbered `id` of `source` has left it: the
/// entry goes only if it is that very session, so removal is idempotent and a
/// late removal by an old session spares its successor.
pub open spec fn evicted<H>(m: Map<SessionSource, (u64, H)>, source: SessionSource, id: u64) -> Map<
    SessionSource,
    (u64, H),
> {
    if m.contains_key(source) && m[source].0 == id {
        m.remove(source)
    } else {
        m
    }
}

/// The cache after each eviction of `evictions` in turn.
pub open spec fn evicted_all<H>(
    m: Map<SessionSource, (u64, H)>,
    evictions: Seq<(SessionSource, u64)>,
) -> Map<SessionSource, (u64, H)>
    decreases evictions.len(),
{
    if evictions.len() == 0 {
        m
    } else {
        evicted_all(evicted(m, evictions[0].0, evictions[0].1), evictions.skip(1))
    }
}

/// A session, once in the cache, stays its source's one session through any
/// run of evictions that does not name it: datagrams from the source keep
/// being routed to it, and no second session is opened for the source until
/// its own eviction.
pub proof fn lemma_one_session_per_epoch<H>(
    m: Map<SessionSource, (u64, H)>,
    source: SessionSource,
    id: u64,
    handle: H,
    evictions: Seq<(SessionSource, u64)>,
)
    requires
        forall|i: int| 0 <= i < evictions.len() ==> evictions[i] != (source, id),
    ensures
        evicted_all(m.insert(source, (id, handle)), evictions).contains_key(source),
        evicted_all(m.insert(source, (id, handle)), evictions)[source] == (id, handle),
{
    lemma_entry_survives(m.insert(source, (id, handle)), source, id, handle, evictions);
}

proof fn lemma_entry_survives<H>(
    m: Map<SessionSource, (u64, H)>,
    source: SessionSource,
    id: u64,
    handle: H,
    evictions: Seq<(SessionSource, u64)>,
)
    requires
        m.contains_key(source),
        m[source] == (id, handle),
        forall|i: int| 0 <= i < evictions.len() ==> evictions[i] != (source, id),
    ensures
        evicted_all(m, evictions).contains_key(source),
        evicted_all(m, evictions)[source] == (id, handle),
    decreases evictions.len(),
{
    if evictions.len() > 0 {
        assert(evictions[0] != (source, id));
        let next = evicted(m, evictions[0].0, evictions[0].1);
        let rest = evictions.skip(1);
        assert forall|i: int| 0 <= i < rest.len() implies rest[i] != (source, id) by {
            assert(rest[i] == evictions[i + 1]);
        }
        lemma_entry_survives(next, source, id, handle, rest);
    }
}

/// When a session's loop ends and evicts it, its source has no session left in
/// the cache: the next datagram from the source opens a new one.
pub proof fn lemma_exit_evicts<H>(m: Map<SessionSource, (u64, H)>, source: SessionSource)
    requires
        m.contains_key(source),
    ensures
        !evicted(m, source, m[source].0).contains_key(source),
{
}

impl<H> View for SessionCache<H> {
    type V = Map<SessionSource, (u64, H)>;

    closed spec fn view(&self) -> Map<SessionSource, (u64, H)> {
        self.model@
    }
}

impl<H> SessionCache<H> {
    /// The number that the next session will get.
    pub closed spec fn issued(&self) -> u64 {
        self.next_id
    }

    pub closed spec fn wf(&self) -> bool {
        &&& self.model@.dom().finite()
        &&& self.model@.len() == self.entries@.len()
        &&& forall|i: int|
            0 <= i < self.entries@.len() ==> {
                let e = #[trigger] self.entries@[i];
                &&& self.model@.contains_key(e.source)
                &&& self.model@[e.source] == (e.id, e.handle)
            }
        &&& forall|i: int, j: int|
            0 <= i < j < self.entries@.len() ==> #[trigger] self.entries@[i].source
                != #[trigger] self.entries@[j].source
        &&& forall|s: SessionSource| #[trigger]
            self.model@.contains_key(s) ==> exists|i: int|
                0 <= i < self.entries@.len() && #[trigger] self.entries@[i].source == s
        &&& forall|s: SessionSource| #[trigger]
            self.model@.contains_key(s) ==> self.model@[s].0 < self.next_id
    }

    /// Every number in use was handed out before `issued`, so the session
    /// that `insert` opens next is numbered apart from every live one and from
    /// every one that came before.
    pub proof fn lemma_ids_issued(&self, s: SessionSource)
        requires
            self.wf(),
            self@.contains_key(s),
        ensures
            self@[s].0 < self.issued(),
    {
    }

    pub fn new() -> (r: Self)
        ensures
            r.wf(),
            r@ == Map::<SessionSource, (u64, H)>::empty(),
            r.issued() == 0,
    {
        SessionCache { entries: Vec::new(), next_id: 0, model: Ghost(Map::empty()) }
    }

    /// The number of live sessions.
    pub fn len(&self) -> (r: usize)
        requires
            self.wf(),
        ensures
            r == self@.len(),
    {
        self.entries.len()
    }

    fn find(&self, source: &SessionSource) -> (r: Option<usize>)
        requires
            self.wf(),
        ensures
            match r {
                Some(i) => i < self.entries@.len() && self.entries@[i as int].source == *source,
                None => !self@.contains_key(*source),
            },
    {
        let mut i: usize = 0;
        while i < self.entries.len()
            invariant
                self.wf(),
                i <= self.entries@.len(),
                forall|k: int| 0 <= k < i ==> #[trigger] self.entries@[k].source != *source,
            decreases self.entries@.len() - i,
        {
            if self.entries[i].source == *source {
                return Some(i);
            }
            i = i + 1;
        }
        None
    }

    /// The number of the live session of `source`, if it has one.
    pub fn lookup(&self, source: &SessionSource) -> (r: Option<u64>)
        requires
            self.wf(),
        ensures
            match r {
                Some(id) => self@.contains_key(*source) && self@[*source].0 == id,
                None => !self@.contains_key(*source),
            },
    {
        match self.find(source) {
            Some(i) => Some(self.entries[i].id),
            None => None,
        }
    }

    /// The handle of the live session of `source`, if it has one.
    pub fn handle(&self, source: &SessionSource) -> (r: Option<&H>)
        requires
            self.wf(),
        ensures
            match r {
                Some(h) => self@.contains_key(*source) && self@[*source].1 == *h,
                None => !self@.contains_key(*source),
            },
    {
        match self.find(source) {
            Some(i) => Some(&self.entries[i].handle),
            None => None,
        }
    }

    /// Enters a new session for `source` and returns its number. Nothing
    /// changes, and `None` comes back, where `source` already has a session
    /// (there is never a second one) or every number has been handed out.
    pub fn insert(&mut self, source: SessionSource, handle: H) -> (r: Option<u64>)
        requires
            old(self).wf(),
        ensures
            final(self).wf(),
            r is Some <==> !old(self)@.contains_key(source) && old(self).issued() < u64::MAX,
            match r {
                Some(id) => {
                    &&& id == old(self).issued()
                    &&& final(self).issued() == old(self).issued() + 1
                    &&& final(self)@ == old(self)@.insert(source, (id, handle))
                },
                None => final(self)@ == old(self)@ && final(self).issued() == old(self).issued(),
            },
    {
        if self.next_id == u64::MAX {
            return None;
        }
        match self.find(&source) {
            Some(_) => None,
            None => {
                let id = self.next_id;
                proof {
                    assert(!self.model@.dom().contains(source));
                }
                let ghost old_entries = self.entries@;
                self.model = Ghost(self.model@.insert(source, (id, handle)));
                self.entries.push(CacheEntry { source, id, handle });
                self.next_id = id + 1;
                proof {
                    assert forall|s: SessionSource| #[trigger]
                        self.model@.contains_key(s) implies exists|i: int|
                            0 <= i < self.entries@.len() && #[trigger] self.entries@[i].source
                                == s by {
                        if s == source {
                            assert(self.entries@[old_entries.len() as int].source == s);
                        } else {
                            let i = choose|i: int|
                                0 <= i < old_entries.len() && #[trigger] old_entries[i].source
                                    == s;
                            assert(self.entries@[i].source == s);
                        }
                    }
                }
                Some(id)
            },
        }
    }

    /// Takes the session numbered `id` of `source` out of the cache, if it is
    /// still there; says whether it was.
    pub fn remove(&mut self, source: &SessionSource, id: u64) -> (r: bool)
        requires
            old(self).wf(),
        ensures
            final(self).wf(),
            r == (old(self)@.contains_key(*source) && old(self)@[*source].0 == id),
            final(self)@ == evicted(old(self)@, *source, id),
            final(self).issued() == old(self).issued(),
    {
        match self.find(source) {
            None => false,
            Some(i) => {
                if self.entries[i].id != id {
                    return false;
                }
                let ghost old_entries = self.entries@;
                let ghost old_model = self.model@;
                self.model = Ghost(self.model@.remove(*source));
                let _gone = self.entries.swap_remove(i);
                proof {
                    assert forall|s: SessionSource| #[trigger]
                        self.model@.contains_key(s) implies exists|k: int|
                            0 <= k < self.entries@.len() && #[trigger] self.entries@[k].source
                                == s by {
                        let k = choose|k: int|
                            0 <= k < old_entries.len() && #[trigger] old_entries[k].source == s;
                        if k == old_entries.len() - 1 {
                            assert(self.entries@[i as int].source == s);
                        } else {
                            assert(self.entries@[k].source == s);
                        }
                    }
                }
                true
            },
        }
    }
}

} // verus!
