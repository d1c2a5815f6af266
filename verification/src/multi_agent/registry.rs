//! Registry of agent profiles, keyed by profile id.
use std::marker::PhantomData;
use vstd::prelude::*;

use crate::text::str_eq;

verus! {

/// Profile of one agent.
#[derive(Debug, Clone)]
pub struct AgentProfile {
    pub id: String,
    pub name: String,
    pub role: String,
    pub system_prompt: Option<String>,
    pub max_steps: Option<usize>,
}

/// Built-in agent roles.
#[derive(Debug, Clone)]
pub enum AgentRole {
    GeneralAssistant,
    CodeReviewer,
    DataAnalyst,
    Researcher,
    Custom(String),
}

/// Persistence of agent state, implemented by hosts.
pub trait MemoryProvider {
    type Error;

    fn save_state(&self, agent_id: &str, state: &str) -> Result<(), Self::Error>;

    fn load_state(&self, agent_id: &str) -> Result<Option<String>, Self::Error>;
}

/// Memory configuration of an agent.
#[derive(Debug, Clone)]
pub struct MemoryConfig {
    pub enabled: bool,
    pub provider: String,
}

/// Identifier of a conversation context.
#[derive(Debug, Clone, PartialEq, Eq, Hash)]
pub struct ContextId(pub String);

impl ContextId {
    /// The context id `id`.
    pub fn new(id: String) -> (r: Self)
        ensures
            r.0 == id,
    {
        ContextId(id)
    }
}

/// Whether no two profiles of `s` share an id.
pub open spec fn unique_ids(s: Seq<AgentProfile>) -> bool {
    forall|i: int, j: int| 0 <= i < s.len() && 0 <= j < s.len() && i != j ==> s[i].id@ != s[j].id@
}

/// The profile with id `k` in `s`, if any.
pub open spec fn lookup(s: Seq<AgentProfile>, k: Seq<char>) -> Option<AgentProfile> {
    if exists|i: int| 0 <= i < s.len() && (#[trigger] s[i]).id@ == k {
        Some(s[choose|i: int| 0 <= i < s.len() && (#[trigger] s[i]).id@ == k])
    } else {
        None
    }
}

proof fn lemma_lookup_at(s: Seq<AgentProfile>, i: int)
    requires
        unique_ids(s),
        0 <= i < s.len(),
    ensures
        lookup(s, s[i].id@) == Some(s[i]),
{
    let k = s[i].id@;
    assert(s[i].id@ == k);
    let j = choose|j: int| 0 <= j < s.len() && (#[trigger] s[j]).id@ == k;
    assert(j == i);
}

/// Agent profiles keyed by id; registering an id again replaces its profile.
pub struct AgentRegistry<P> {
    profiles: Vec<AgentProfile>,
    _provider: PhantomData<P>,
}

impl<P> AgentRegistry<P> {
    /// The registered profiles (each id once).
    pub closed spec fn profiles_spec(&self) -> Seq<AgentProfile> {
        self.profiles@
    }

    /// The profile registered under `k`, if any.
    pub open spec fn get_spec(&self, k: Seq<char>) -> Option<AgentProfile> {
        lookup(self.profiles_spec(), k)
    }

    /// An empty registry.
    pub fn new() -> (r: Self)
        ensures
            r.profiles_spec() == Seq::<AgentProfile>::empty(),
            unique_ids(r.profiles_spec()),
    {
        AgentRegistry { profiles: Vec::new(), _provider: PhantomData }
    }

    /// Register `profile` under its id, replacing a profile with the same id.
    pub fn register(&mut self, profile: AgentProfile)
        requires
            unique_ids(old(self).profiles_spec()),
        ensures
            unique_ids(final(self).profiles_spec()),
            forall|k: Seq<char>| #[trigger] final(self).get_spec(k) == if k == profile.id@ {
                Some(profile)
            } else {
                old(self).get_spec(k)
            },
    {
        let ghost old_s = self.profiles@;
        let mut i: usize = 0;
        while i < self.profiles.len()
            invariant
                i <= self.profiles@.len(),
                self.profiles@ == old_s,
                old_s == old(self).profiles@,
                unique_ids(old_s),
                forall|j: int| 0 <= j < i ==> self.profiles@[j].id@ != profile.id@,
            decreases self.profiles@.len() - i,
        {
            if self.profiles[i].id == profile.id {
                let ghost key = profile.id@;
                self.profiles.set(i, profile);
                proof {
                    let s = self.profiles@;
                    assert(s[i as int] == profile);
                    assert(s[i as int].id@ == key);
                    assert forall|a: int, b: int| 0 <= a < s.len() && 0 <= b < s.len() && a != b implies s[a].id@ != s[b].id@ by {
                        if a != i && b != i {
                            assert(s[a] == old_s[a] && s[b] == old_s[b]);
                        } else if a == i {
                            assert(s[b] == old_s[b]);
                        } else {
                            assert(s[a] == old_s[a]);
                        }
                    }
                    assert forall|k: Seq<char>| #[trigger] lookup(s, k) == if k == key {
                        Some(s[i as int])
                    } else {
                        lookup(old_s, k)
                    } by {
                        if k == key {
                            lemma_lookup_at(s, i as int);
                        } else if exists|j: int| 0 <= j < old_s.len() && (#[trigger] old_s[j]).id@ == k {
                            let j = choose|j: int| 0 <= j < old_s.len() && (#[trigger] old_s[j]).id@ == k;
                            lemma_lookup_at(s, j);
                            lemma_lookup_at(old_s, j);
                        } else {
                            assert forall|j: int| 0 <= j < s.len() implies (#[trigger] s[j]).id@ != k by {
                                if j != i {
                                    assert(s[j] == old_s[j]);
                                }
                            }
                        }
                    }
                    assert(self.profiles_spec() == s);
                    assert(old(self).profiles_spec() == old_s);
                    assert forall|k: Seq<char>| #[trigger] self.get_spec(k) == if k == key {
                        Some(profile)
                    } else {
                        old(self).get_spec(k)
                    } by {
                        assert(lookup(s, k) == if k == key {
                            Some(s[i as int])
                        } else {
                            lookup(old_s, k)
                        });
                    }
                }
                return;
            }
            i = i + 1;
        }
        let ghost key = profile.id@;
        self.profiles.push(profile);
        proof {
            let s = self.profiles@;
            let n = old_s.len() as int;
            assert(s[n].id@ == key);
            assert forall|a: int, b: int| 0 <= a < s.len() && 0 <= b < s.len() && a != b implies s[a].id@ != s[b].id@ by {
                if a < n && b < n {
                    assert(s[a] == old_s[a] && s[b] == old_s[b]);
                } else if a == n {
                    assert(s[b] == old_s[b]);
                } else {
                    assert(s[a] == old_s[a]);
                }
            }
            assert forall|k: Seq<char>| #[trigger] lookup(s, k) == if k == key {
                Some(s[n])
            } else {
                lookup(old_s, k)
            } by {
                if k == key {
                    lemma_lookup_at(s, n);
                } else if exists|j: int| 0 <= j < old_s.len() && (#[trigger] old_s[j]).id@ == k {
                    let j = choose|j: int| 0 <= j < old_s.len() && (#[trigger] old_s[j]).id@ == k;
                    assert(s[j] == old_s[j]);
                    lemma_lookup_at(s, j);
                    lemma_lookup_at(old_s, j);
                } else {
                    assert forall|j: int| 0 <= j < s.len() implies (#[trigger] s[j]).id@ != k by {
                        if j < n {
                            assert(s[j] == old_s[j]);
                        }
                    }
                }
            }
        }
    }

    /// The profile registered under `id`, if any.
    pub fn get_profile(&self, id: &str) -> (r: Option<&AgentProfile>)
        requires
            unique_ids(self.profiles_spec()),
        ensures
            r matches Some(p) ==> self.get_spec(id@) == Some(*p),
            r is None ==> self.get_spec(id@) is None,
    {
        let mut i: usize = 0;
        while i < self.profiles.len()
            invariant
                i <= self.profiles@.len(),
                unique_ids(self.profiles@),
                forall|j: int| 0 <= j < i ==> self.profiles@[j].id@ != id@,
            decreases self.profiles@.len() - i,
        {
            if str_eq(self.profiles[i].id.as_str(), id) {
                proof {
                    assert(self.profiles@[i as int].id@ == id@);
                    lemma_lookup_at(self.profiles@, i as int);
                }
                return Some(&self.profiles[i]);
            }
            i = i + 1;
        }
        None
    }

    /// Every registered profile, each once.
    pub fn list_profiles(&self) -> (r: Vec<&AgentProfile>)
        ensures
            r@.len() == self.profiles_spec().len(),
            forall|i: int| 0 <= i < r@.len() ==> *r@[i] == self.profiles_spec()[i],
    {
        let mut r: Vec<&AgentProfile> = Vec::new();
        let mut i: usize = 0;
        while i < self.profiles.len()
            invariant
                i <= self.profiles@.len(),
                r@.len() == i,
                forall|j: int| 0 <= j < i ==> *r@[j] == self.profiles@[j],
            decreases self.profiles@.len() - i,
        {
            r.push(&self.profiles[i]);
            i = i + 1;
        }
        r
    }
}

/// Registering a profile makes it the answer for its id and leaves every other
/// id's answer unchanged (the registry reads back what was written).
pub proof fn law_register_then_get<P>(before: AgentRegistry<P>, after: AgentRegistry<P>, profile: AgentProfile, other: Seq<char>)
    requires
        forall|k: Seq<char>| #[trigger] after.get_spec(k) == if k == profile.id@ {
            Some(profile)
        } else {
            before.get_spec(k)
        },
        other != profile.id@,
    ensures
        after.get_spec(profile.id@) == Some(profile),
        after.get_spec(other) == before.get_spec(other),
{
    assert(after.get_spec(profile.id@) == Some(profile));
    assert(after.get_spec(other) == before.get_spec(other));
}

} // verus!
