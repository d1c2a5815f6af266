//! A small string-to-string map used for metadata, details and attributes.
use vstd::prelude::*;

use crate::text::str_eq;

verus! {

/// Whether no two entries share a key.
pub open spec fn unique_keys(s: Seq<(String, String)>) -> bool {
    forall|i: int, j: int| 0 <= i < s.len() && 0 <= j < s.len() && i != j ==> s[i].0@ != s[j].0@
}

/// The value stored under `k`, if any.
pub open spec fn entry_lookup(s: Seq<(String, String)>, k: Seq<char>) -> Option<Seq<char>> {
    if exists|i: int| 0 <= i < s.len() && (#[trigger] s[i]).0@ == k {
        Some(s[choose|i: int| 0 <= i < s.len() && (#[trigger] s[i]).0@ == k].1@)
    } else {
        None
    }
}

proof fn lemma_entry_lookup_at(s: Seq<(String, String)>, i: int)
    requires
        unique_keys(s),
        0 <= i < s.len(),
    ensures
        entry_lookup(s, s[i].0@) == Some(s[i].1@),
{
    let k = s[i].0@;
    assert(s[i].0@ == k);
    let j = choose|j: int| 0 <= j < s.len() && (#[trigger] s[j]).0@ == k;
    assert(j == i);
}

/// Map from strings to strings; inserting a key again replaces its value.
#[derive(Debug)]
pub struct StringMap {
    entries: Vec<(String, String)>,
}

impl StringMap {
    /// The entries, each key once.
    pub closed spec fn entries_spec(&self) -> Seq<(String, String)> {
        self.entries@
    }

    /// Whether the map is well formed (each key once).
    pub open spec fn wf(&self) -> bool {
        unique_keys(self.entries_spec())
    }

    /// The value under `k`, if any.
    pub open spec fn get_spec(&self, k: Seq<char>) -> Option<Seq<char>> {
        entry_lookup(self.entries_spec(), k)
    }

    /// Number of keys.
    pub open spec fn len_spec(&self) -> nat {
        self.entries_spec().len()
    }

    /// An empty map.
    pub fn new() -> (r: Self)
        ensures
            r.wf(),
            r.len_spec() == 0,
            forall|k: Seq<char>| #[trigger] r.get_spec(k) is None,
    {
        StringMap { entries: Vec::new() }
    }

    /// Store `value` under `key`, replacing a previous value.
    pub fn insert(&mut self, key: &str, value: &str)
        requires
            old(self).wf(),
        ensures
            final(self).wf(),
            forall|k: Seq<char>| #[trigger] final(self).get_spec(k) == if k == key@ {
                Some(value@)
            } else {
                old(self).get_spec(k)
            },
            old(self).get_spec(key@) is Some ==> final(self).len_spec() == old(self).len_spec(),
            old(self).get_spec(key@) is None ==> final(self).len_spec() == old(self).len_spec() + 1,
    {
        let ghost old_s = self.entries@;
        let mut i: usize = 0;
        while i < self.entries.len()
            invariant
                i <= self.entries@.len(),
                self.entries@ == old_s,
                old_s == old(self).entries@,
                unique_keys(old_s),
                forall|j: int| 0 <= j < i ==> self.entries@[j].0@ != key@,
            decreases self.entries@.len() - i,
        {
            if str_eq(self.entries[i].0.as_str(), key) {
                proof {
                    lemma_entry_lookup_at(old_s, i as int);
                }
                let k = self.entries[i].0.clone();
                self.entries.set(i, (k, value.to_owned()));
                proof {
                    let s = self.entries@;
                    assert forall|a: int, b: int| 0 <= a < s.len() && 0 <= b < s.len() && a != b implies s[a].0@
                        != s[b].0@ by {
                        if a != i && b != i {
                            assert(s[a] == old_s[a] && s[b] == old_s[b]);
                        } else if a == i {
                            assert(s[b] == old_s[b]);
                        } else {
                            assert(s[a] == old_s[a]);
                        }
                    }
                    assert forall|kk: Seq<char>| #[trigger] entry_lookup(s, kk) == if kk == key@ {
                        Some(value@)
                    } else {
                        entry_lookup(old_s, kk)
                    } by {
                        if kk == key@ {
                            lemma_entry_lookup_at(s, i as int);
                        } else if exists|j: int| 0 <= j < old_s.len() && (#[trigger] old_s[j]).0@ == kk {
                            let j = choose|j: int| 0 <= j < old_s.len() && (#[trigger] old_s[j]).0@ == kk;
                            assert(s[j] == old_s[j]);
                            lemma_entry_lookup_at(s, j);
                            lemma_entry_lookup_at(old_s, j);
                        } else {
                            assert forall|j: int| 0 <= j < s.len() implies (#[trigger] s[j]).0@ != kk by {
                                if j != i {
                                    assert(s[j] == old_s[j]);
                                }
                            }
                        }
                    }
                    assert(self.entries_spec() == s);
                    assert(old(self).entries_spec() == old_s);
                }
                return;
            }
            i = i + 1;
        }
        self.entries.push((key.to_owned(), value.to_owned()));
        proof {
            let s = self.entries@;
            let n = old_s.len() as int;
            assert(s[n].0@ == key@);
            assert forall|a: int, b: int| 0 <= a < s.len() && 0 <= b < s.len() && a != b implies s[a].0@ != s[b].0@ by {
                if a < n && b < n {
                    assert(s[a] == old_s[a] && s[b] == old_s[b]);
                } else if a == n {
                    assert(s[b] == old_s[b]);
                } else {
                    assert(s[a] == old_s[a]);
                }
            }
            assert forall|kk: Seq<char>| #[trigger] entry_lookup(s, kk) == if kk == key@ {
                Some(value@)
            } else {
                entry_lookup(old_s, kk)
            } by {
                if kk == key@ {
                    lemma_entry_lookup_at(s, n);
                } else if exists|j: int| 0 <= j < old_s.len() && (#[trigger] old_s[j]).0@ == kk {
                    let j = choose|j: int| 0 <= j < old_s.len() && (#[trigger] old_s[j]).0@ == kk;
                    assert(s[j] == old_s[j]);
                    lemma_entry_lookup_at(s, j);
                    lemma_entry_lookup_at(old_s, j);
                } else {
                    assert forall|j: int| 0 <= j < s.len() implies (#[trigger] s[j]).0@ != kk by {
                        if j < n {
                            assert(s[j] == old_s[j]);
                        }
                    }
                }
            }
            assert forall|j: int| 0 <= j < old_s.len() implies (#[trigger] old_s[j]).0@ != key@ by {}
        }
    }

    /// The value stored under `key`, if any.
    pub fn get(&self, key: &str) -> (r: Option<&String>)
        requires
            self.wf(),
        ensures
            r matches Some(v) ==> self.get_spec(key@) == Some(v@),
            r is None ==> self.get_spec(key@) is None,
    {
        let mut i: usize = 0;
        while i < self.entries.len()
            invariant
                i <= self.entries@.len(),
                unique_keys(self.entries@),
                forall|j: int| 0 <= j < i ==> self.entries@[j].0@ != key@,
            decreases self.entries@.len() - i,
        {
            if str_eq(self.entries[i].0.as_str(), key) {
                proof {
                    lemma_entry_lookup_at(self.entries@, i as int);
                }
                return Some(&self.entries[i].1);
            }
            i = i + 1;
        }
        None
    }

    /// Whether a value is stored under `key`.
    pub fn contains_key(&self, key: &str) -> (r: bool)
        requires
            self.wf(),
        ensures
            r == self.get_spec(key@) is Some,
    {
        self.get(key).is_some()
    }

    /// Number of keys.
    pub fn len(&self) -> (r: usize)
        ensures
            r == self.len_spec(),
    {
        self.entries.len()
    }

    /// The entries in insertion order, each key once.
    pub fn entries(&self) -> (r: Vec<(String, String)>)
        ensures
            r@ == self.entries_spec(),
    {
        let mut out: Vec<(String, String)> = Vec::new();
        let mut i: usize = 0;
        while i < self.entries.len()
            invariant
                i <= self.entries@.len(),
                out@ == self.entries@.take(i as int),
            decreases self.entries@.len() - i,
        {
            let e = (self.entries[i].0.clone(), self.entries[i].1.clone());
            proof {
                assert(self.entries@.take(i + 1) =~= self.entries@.take(i as int).push(e));
            }
            out.push(e);
            i = i + 1;
        }
        proof {
            assert(self.entries@.take(i as int) =~= self.entries@);
        }
        out
    }

    /// Whether the map is empty.
    pub fn is_empty(&self) -> (r: bool)
        ensures
            r == (self.len_spec() == 0),
    {
        self.entries.len() == 0
    }
}

impl Clone for StringMap {
    fn clone(&self) -> (r: Self)
        ensures
            r.entries_spec() == self.entries_spec(),
    {
        StringMap { entries: self.entries() }
    }
}

/// A map reads back what was last written under each key, and a write leaves
/// every other key unchanged.
pub proof fn law_map_read_after_write(before: StringMap, after: StringMap, key: Seq<char>, value: Seq<char>, other: Seq<char>)
    requires
        forall|k: Seq<char>| #[trigger] after.get_spec(k) == if k == key {
            Some(value)
        } else {
            before.get_spec(k)
        },
        other != key,
    ensures
        after.get_spec(key) == Some(value),
        after.get_spec(other) == before.get_spec(other),
{
    assert(after.get_spec(key) == Some(value));
    assert(after.get_spec(other) == before.get_spec(other));
}

} // verus!
