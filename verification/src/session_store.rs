//! In-memory session histories with least-recently-used eviction.
use vstd::prelude::*;

use crate::domain::ChatMessage;
use crate::text::str_eq;

verus! {

/// Default maximum number of sessions kept in memory.
pub const DEFAULT_MAX_SESSIONS: usize = 256;

/// Session ids in access order after touching `id`: an existing id moves to the
/// back; a new id goes to the back, after the front (least recently used) id
/// has been evicted when `max` or more sessions are held.
pub open spec fn lru_touch(ids: Seq<Seq<char>>, id: Seq<char>, max: nat) -> Seq<Seq<char>> {
    if ids.contains(id) {
        ids.remove(ids.index_of(id)).push(id)
    } else if ids.len() >= max && ids.len() > 0 {
        ids.drop_first().push(id)
    } else {
        ids.push(id)
    }
}

/// The ids of a sequence of sessions, in order.
pub open spec fn ids_of(s: Seq<(String, Vec<ChatMessage>)>) -> Seq<Seq<char>> {
    s.map_values(|e: (String, Vec<ChatMessage>)| e.0@)
}

proof fn lemma_index_of_unique(s: Seq<Seq<char>>, i: int)
    requires
        s.no_duplicates(),
        0 <= i < s.len(),
    ensures
        s.index_of(s[i]) == i,
{
    assert(s.contains(s[i]));
    let j = s.index_of(s[i]);
    assert(0 <= j < s.len() && s[j] == s[i]);
}

proof fn lemma_update_keeps_ids(s: Seq<(String, Vec<ChatMessage>)>, i: int)
    requires
        0 <= i < s.len(),
    ensures
        forall|h: Vec<ChatMessage>| #[trigger] ids_of(s.update(i, (s[i].0, h))) == ids_of(s),
{
    assert forall|h: Vec<ChatMessage>| #[trigger] ids_of(s.update(i, (s[i].0, h))) == ids_of(s) by {
        assert(ids_of(s.update(i, (s[i].0, h))) =~= ids_of(s));
    }
}

/// Session histories keyed by id; the front of the order is the least recently
/// used session.
pub struct SessionStore {
    sessions: Vec<(String, Vec<ChatMessage>)>,
    max_sessions: usize,
}

impl SessionStore {
    /// Session ids, least recently used first.
    pub closed spec fn ids(&self) -> Seq<Seq<char>> {
        ids_of(self.sessions@)
    }

    /// The history of session `id`, if held.
    pub closed spec fn history(&self, id: Seq<char>) -> Option<Seq<ChatMessage>> {
        if self.ids().contains(id) {
            Some(self.sessions@[self.ids().index_of(id)].1@)
        } else {
            None
        }
    }

    /// The capacity the store was made with.
    pub closed spec fn capacity(&self) -> nat {
        self.max_sessions as nat
    }

    /// Each id is held once, and no more sessions are held than the capacity
    /// (at least one) allows.
    pub closed spec fn wf(&self) -> bool {
        &&& self.ids().no_duplicates()
        &&& self.ids().len() <= effective_capacity(self.max_sessions as nat)
    }

    /// An empty store keeping at most `max_sessions` sessions (at least one).
    pub fn new(max_sessions: usize) -> (r: Self)
        ensures
            r.wf(),
            r.ids() == Seq::<Seq<char>>::empty(),
            r.capacity() == max_sessions,
    {
        let r = SessionStore { sessions: Vec::new(), max_sessions };
        proof {
            assert(r.ids() =~= Seq::<Seq<char>>::empty());
        }
        r
    }

    fn position(&self, id: &str) -> (r: Option<usize>)
        requires
            self.wf(),
        ensures
            r is None <==> !self.ids().contains(id@),
            r matches Some(p) ==> p < self.ids().len() && p == self.ids().index_of(id@),
    {
        let mut i: usize = 0;
        while i < self.sessions.len()
            invariant
                self.wf(),
                i <= self.sessions@.len(),
                forall|j: int| 0 <= j < i ==> self.ids()[j] != id@,
            decreases self.sessions@.len() - i,
        {
            if str_eq(self.sessions[i].0.as_str(), id) {
                proof {
                    lemma_index_of_unique(self.ids(), i as int);
                }
                return Some(i);
            }
            i = i + 1;
        }
        None
    }

    /// The history of session `id`, if held.
    pub fn get(&self, id: &str) -> (r: Option<&Vec<ChatMessage>>)
        requires
            self.wf(),
        ensures
            r is None <==> self.history(id@) is None,
            r matches Some(h) ==> self.history(id@) == Some(h@),
    {
        match self.position(id) {
            Some(p) => Some(&self.sessions[p].1),
            None => None,
        }
    }

    /// Number of sessions held.
    pub fn len(&self) -> (r: usize)
        ensures
            r == self.ids().len(),
    {
        self.sessions.len()
    }

    /// Mark `id` as the most recently used session, creating it empty when
    /// absent (after evicting the least recently used one at capacity).
    fn touch(&mut self, id: &str)
        requires
            old(self).wf(),
        ensures
            final(self).wf(),
            final(self).capacity() == old(self).capacity(),
            final(self).ids() == lru_touch(old(self).ids(), id@, old(self).capacity()),
            final(self).sessions@.last().1@ == match old(self).history(id@) {
                Some(h) => h,
                None => Seq::<ChatMessage>::empty(),
            },
            forall|k: Seq<char>| k != id@ && #[trigger] final(self).ids().contains(k) ==> final(self).history(k)
                == old(self).history(k),
    {
        let ghost old_s = self.sessions@;
        let ghost old_ids = ids_of(old_s);
        proof {
            law_touch_respects_capacity(old_ids, id@, self.max_sessions as nat);
        }
        match self.position(id) {
            Some(p) => {
                let e = self.sessions.remove(p);
                self.sessions.push(e);
                proof {
                    let s = self.sessions@;
                    assert(ids_of(s) =~= old_ids.remove(p as int).push(id@));
                    assert forall|k: Seq<char>| k != id@ && #[trigger] ids_of(s).contains(k) implies self.history(k) == old_self_history(old_s, k) by {
                        let j = ids_of(s).index_of(k);
                        let i = if j < p { j } else { j + 1 };
                        assert(old_ids[i] == k);
                        lemma_index_of_unique(old_ids, i);
                    }
                }
            },
            None => {
                if self.sessions.len() >= self.max_sessions && self.sessions.len() > 0 {
                    self.sessions.remove(0);
                }
                self.sessions.push((id.to_owned(), Vec::new()));
                proof {
                    let s = self.sessions@;
                    assert(ids_of(s) =~= lru_touch(old_ids, id@, self.max_sessions as nat));
                    assert forall|k: Seq<char>| k != id@ && #[trigger] ids_of(s).contains(k) implies self.history(k) == old_self_history(old_s, k) by {
                        let j = ids_of(s).index_of(k);
                        let i = if old_ids.len() >= self.max_sessions && old_ids.len() > 0 { j + 1 } else { j };
                        assert(old_ids[i] == k);
                        lemma_index_of_unique(old_ids, i);
                    }
                }
            },
        }
    }

    /// The history of session `id`, created empty when absent; `id` becomes the
    /// most recently used session, and the least recently used one is evicted
    /// when a new session would exceed the capacity.
    pub fn get_or_create(&mut self, id: &str) -> (r: &mut Vec<ChatMessage>)
        requires
            old(self).wf(),
        ensures
            final(self).wf(),
            final(self).capacity() == old(self).capacity(),
            final(self).ids() == lru_touch(old(self).ids(), id@, old(self).capacity()),
            r@ == match old(self).history(id@) {
                Some(h) => h,
                None => Seq::<ChatMessage>::empty(),
            },
            final(self).history(id@) == Some(final(r)@),
            forall|k: Seq<char>| k != id@ && #[trigger] final(self).ids().contains(k) ==> final(self).history(k)
                == old(self).history(k),
    {
        self.touch(id);
        let n = self.sessions.len();
        proof {
            lemma_index_of_unique(self.ids(), n - 1);
            lemma_update_keeps_ids(self.sessions@, n - 1);
        }
        &mut self.sessions[n - 1].1
    }

    /// The history of session `id`, if held; a held session becomes the most
    /// recently used one.
    pub fn get_mut(&mut self, id: &str) -> (r: Option<&mut Vec<ChatMessage>>)
        requires
            old(self).wf(),
        ensures
            final(self).wf(),
            final(self).capacity() == old(self).capacity(),
            old(self).history(id@) is None ==> r is None && final(self).ids() == old(self).ids()
                && forall|k: Seq<char>| #[trigger] final(self).history(k) == old(self).history(k),
            old(self).history(id@) matches Some(h) ==> r matches Some(m) && m@ == h && final(self).ids()
                == lru_touch(old(self).ids(), id@, old(self).capacity()) && final(self).history(id@) == Some(
                final(m)@),
            forall|k: Seq<char>| k != id@ && #[trigger] final(self).ids().contains(k) ==> final(self).history(k)
                == old(self).history(k),
    {
        if self.position(id).is_some() {
            Some(self.get_or_create(id))
        } else {
            None
        }
    }

    /// Append `messages` to session `id`, creating it when absent.
    pub fn push_messages(&mut self, id: &str, messages: Vec<ChatMessage>)
        requires
            old(self).wf(),
        ensures
            final(self).wf(),
            final(self).capacity() == old(self).capacity(),
            final(self).ids() == lru_touch(old(self).ids(), id@, old(self).capacity()),
            final(self).history(id@) == Some(
                match old(self).history(id@) {
                    Some(h) => h,
                    None => Seq::<ChatMessage>::empty(),
                } + messages@,
            ),
            forall|k: Seq<char>| k != id@ && #[trigger] final(self).ids().contains(k) ==> final(self).history(k)
                == old(self).history(k),
    {
        let mut messages = messages;
        let history = self.get_or_create(id);
        history.append(&mut messages);
    }
}

/// The history of `k` in a sequence of sessions.
spec fn old_self_history(s: Seq<(String, Vec<ChatMessage>)>, k: Seq<char>) -> Option<Seq<ChatMessage>> {
    if ids_of(s).contains(k) {
        Some(s[ids_of(s).index_of(k)].1@)
    } else {
        None
    }
}

} // verus!

verus! {

/// The larger of a capacity and one: a store never holds more sessions than this.
pub open spec fn effective_capacity(max: nat) -> nat {
    if max == 0 {
        1
    } else {
        max
    }
}

/// Touching a session keeps the ids distinct, never takes the store past its
/// capacity (at least one), and leaves the touched id as the most recently used.
pub proof fn law_touch_respects_capacity(ids: Seq<Seq<char>>, id: Seq<char>, max: nat)
    requires
        ids.no_duplicates(),
        ids.len() <= effective_capacity(max),
    ensures
        lru_touch(ids, id, max).no_duplicates(),
        lru_touch(ids, id, max).len() <= effective_capacity(max),
        lru_touch(ids, id, max).last() == id,
        lru_touch(ids, id, max).contains(id),
{
    let t = lru_touch(ids, id, max);
    if ids.contains(id) {
        let p = ids.index_of(id);
        let r = ids.remove(p);
        assert(t == r.push(id));
        assert forall|i: int, j: int| 0 <= i < t.len() && 0 <= j < t.len() && i != j implies t[i] != t[j] by {
            if i < t.len() - 1 && j < t.len() - 1 {
                let oi = if i < p { i } else { i + 1 };
                let oj = if j < p { j } else { j + 1 };
                assert(t[i] == ids[oi] && t[j] == ids[oj]);
            } else if i < t.len() - 1 {
                let oi = if i < p { i } else { i + 1 };
                assert(t[i] == ids[oi] && oi != p);
            } else {
                let oj = if j < p { j } else { j + 1 };
                assert(t[j] == ids[oj] && oj != p);
            }
        }
    } else if ids.len() >= max && ids.len() > 0 {
        assert forall|i: int, j: int| 0 <= i < t.len() && 0 <= j < t.len() && i != j implies t[i] != t[j] by {
            if i < t.len() - 1 && j < t.len() - 1 {
                assert(t[i] == ids[i + 1] && t[j] == ids[j + 1]);
            } else if i < t.len() - 1 {
                assert(t[i] == ids[i + 1]);
            } else {
                assert(t[j] == ids[j + 1]);
            }
        }
    } else {
        assert forall|i: int, j: int| 0 <= i < t.len() && 0 <= j < t.len() && i != j implies t[i] != t[j] by {
            if i < t.len() - 1 && j < t.len() - 1 {
                assert(t[i] == ids[i] && t[j] == ids[j]);
            } else if i < t.len() - 1 {
                assert(t[i] == ids[i]);
            } else {
                assert(t[j] == ids[j]);
            }
        }
    }
    assert(t[t.len() - 1] == id);
}

/// When a new session arrives at a full store, exactly the least recently used
/// session leaves; every other session stays, in the same order.
pub proof fn law_evicts_least_recently_used(ids: Seq<Seq<char>>, id: Seq<char>, max: nat)
    requires
        ids.no_duplicates(),
        !ids.contains(id),
        ids.len() >= max,
        ids.len() > 0,
    ensures
        !lru_touch(ids, id, max).contains(ids[0]),
        lru_touch(ids, id, max) == ids.drop_first().push(id),
{
    let t = lru_touch(ids, id, max);
    if t.contains(ids[0]) {
        let k = t.index_of(ids[0]);
        if k < t.len() - 1 {
            assert(t[k] == ids[k + 1]);
        }
    }
}

/// Touching a session that is held moves it to the back and keeps every other
/// session in its relative order.
pub proof fn law_touch_existing_moves_to_back(ids: Seq<Seq<char>>, id: Seq<char>, max: nat)
    requires
        ids.no_duplicates(),
        ids.contains(id),
    ensures
        lru_touch(ids, id, max).len() == ids.len(),
        lru_touch(ids, id, max) == ids.remove(ids.index_of(id)).push(id),
{
}

} // verus!
