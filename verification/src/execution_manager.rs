//! The agents of the sessions that are in use.
use crate::assoc::{self, lookup, unique_keys, without};
use crate::text;
use vstd::prelude::*;
use vstd::string::*;

verus! {

/// The cache of the crate `lru`.
#[verifier::external_type_specification]
#[verifier::external_body]
#[verifier::reject_recursive_types(K)]
#[verifier::reject_recursive_types(V)]
#[verifier::reject_recursive_types(S)]
pub struct ExLruCache<K, V, S>(lru::LruCache<K, V, S>);

/// The hasher with which a cache of the crate `lru` is made.
#[verifier::external_type_specification]
#[verifier::external_body]
pub struct ExHasher(lru::DefaultHasher);

/// What a cache holds, the most recently used entry first.
pub uninterp spec fn cached(c: lru::LruCache<String, u64>) -> Seq<(Seq<char>, u64)>;

/// How many entries a cache can hold.
pub uninterp spec fn cache_limit(c: lru::LruCache<String, u64>) -> usize;

/// `lru::LruCache::unbounded`: an empty cache with the largest limit, for which no
/// room is set aside.
#[verifier::external_body]
fn new_cache() -> (r: lru::LruCache<String, u64>)
    ensures
        cached(r) == Seq::<(Seq<char>, u64)>::empty(),
        cache_limit(r) == usize::MAX,
{
    lru::LruCache::unbounded()
}

/// `lru::LruCache::resize`: the cache gets a new limit, and drops the least recently
/// used entries that are over it.
#[verifier::external_body]
fn cache_resize(c: &mut lru::LruCache<String, u64>, capacity: usize)
    requires
        capacity > 0,
    ensures
        cached(*final(c)) == if cached(*old(c)).len() > capacity {
            cached(*old(c)).take(capacity as int)
        } else {
            cached(*old(c))
        },
        cache_limit(*final(c)) == capacity,
{
    c.resize(std::num::NonZeroUsize::new(capacity).unwrap());
}

/// `lru::LruCache::get`: the value under a key, which becomes the most recently
/// used one.
#[verifier::external_body]
fn cache_get(c: &mut lru::LruCache<String, u64>, key: &str) -> (r: Option<u64>)
    ensures
        r == lookup(cached(*old(c)), key@),
        cached(*final(c)) == match lookup(cached(*old(c)), key@) {
            Some(v) => seq![(key@, v)] + without(cached(*old(c)), key@),
            None => cached(*old(c)),
        },
        cache_limit(*final(c)) == cache_limit(*old(c)),
{
    c.get(key).copied()
}

/// `lru::LruCache::put`: the entry becomes the most recently used one. A full
/// cache without the key drops its least recently used entry.
#[verifier::external_body]
fn cache_put(c: &mut lru::LruCache<String, u64>, key: String, value: u64)
    ensures
        cached(*final(c)) == match lookup(cached(*old(c)), key@) {
            Some(_) => seq![(key@, value)] + without(cached(*old(c)), key@),
            None => if cached(*old(c)).len() == cache_limit(*old(c)) {
                seq![(key@, value)] + cached(*old(c)).drop_last()
            } else {
                seq![(key@, value)] + cached(*old(c))
            },
        },
        cache_limit(*final(c)) == cache_limit(*old(c)),
{
    c.put(key, value);
}

/// `lru::LruCache::pop`: takes the entry under a key out.
#[verifier::external_body]
fn cache_pop(c: &mut lru::LruCache<String, u64>, key: &str) -> (r: Option<u64>)
    ensures
        r == lookup(cached(*old(c)), key@),
        cached(*final(c)) == without(cached(*old(c)), key@),
        cache_limit(*final(c)) == cache_limit(*old(c)),
{
    c.pop(key)
}

/// `lru::LruCache::contains`: whether a key has an entry.
#[verifier::external_body]
fn cache_contains(c: &lru::LruCache<String, u64>, key: &str) -> (r: bool)
    ensures
        r == (lookup(cached(*c), key@) is Some),
{
    c.contains(key)
}

/// `lru::LruCache::len`: the number of entries.
#[verifier::external_body]
fn cache_len(c: &lru::LruCache<String, u64>) -> (r: usize)
    ensures
        r == cached(*c).len(),
{
    c.len()
}

/// The number of sessions where nothing else is asked for.
pub const DEFAULT_MAX_SESSION: usize = 100;

/// The number of sessions that are kept: zero stands for the default.
pub open spec fn session_capacity(max_sessions: Option<usize>) -> usize {
    match max_sessions {
        Some(n) => if n == 0 {
            DEFAULT_MAX_SESSION
        } else {
            n
        },
        None => DEFAULT_MAX_SESSION,
    }
}

/// The agents of the sessions that are in use, each known by a number under
/// which the caller keeps it.
pub struct AgentManager {
    sessions: lru::LruCache<String, u64>,
}

impl AgentManager {
    /// The sessions and their agents, the most recently used first.
    pub closed spec fn entries(&self) -> Seq<(Seq<char>, u64)> {
        cached(self.sessions)
    }

    /// How many sessions are kept.
    pub closed spec fn limit(&self) -> usize {
        cache_limit(self.sessions)
    }

    /// No session stands twice, and no more are kept than the limit allows.
    pub open spec fn wf(&self) -> bool {
        &&& unique_keys(self.entries())
        &&& self.entries().len() <= self.limit()
        &&& self.limit() > 0
    }

    /// No session is in use.
    pub fn new(max_sessions: Option<usize>) -> (r: Self)
        ensures
            r.wf(),
            r.entries() == Seq::<(Seq<char>, u64)>::empty(),
            r.limit() == session_capacity(max_sessions),
    {
        let capacity: usize = match max_sessions {
            Some(n) => if n == 0 {
                DEFAULT_MAX_SESSION
            } else {
                n
            },
            None => DEFAULT_MAX_SESSION,
        };
        let mut sessions = new_cache();
        cache_resize(&mut sessions, capacity);
        AgentManager { sessions }
    }

    /// The agent of a session, which becomes the most recently used one.
    pub fn get_agent(&mut self, session_id: &str) -> (r: Option<u64>)
        requires
            old(self).wf(),
        ensures
            r == lookup(old(self).entries(), session_id@),
            final(self).entries() == used(old(self).entries(), session_id@),
            final(self).limit() == old(self).limit(),
            final(self).wf(),
    {
        proof {
            lemma_used(self.entries(), session_id@);
        }
        cache_get(&mut self.sessions, session_id)
    }

    /// Keeps a new agent for a session, unless it has one by now. Returns the
    /// agent that the session has.
    pub fn get_or_create_agent(&mut self, session_id: String, agent: u64) -> (r: u64)
        requires
            old(self).wf(),
        ensures
            r == match lookup(old(self).entries(), session_id@) {
                Some(existing) => existing,
                None => agent,
            },
            final(self).entries() == created(
                old(self).entries(),
                old(self).limit(),
                session_id@,
                agent,
            ),
            final(self).limit() == old(self).limit(),
            final(self).wf(),
    {
        proof {
            lemma_created(self.entries(), self.limit(), session_id@, agent);
        }
        match cache_get(&mut self.sessions, &session_id) {
            Some(existing) => existing,
            None => {
                cache_put(&mut self.sessions, session_id, agent);
                agent
            },
        }
    }

    /// Takes a session out, or reports that there is none.
    pub fn remove_session(&mut self, session_id: &str) -> (r: Result<(), String>)
        requires
            old(self).wf(),
        ensures
            final(self).entries() == without(old(self).entries(), session_id@),
            final(self).limit() == old(self).limit(),
            final(self).wf(),
            match r {
                Ok(_) => lookup(old(self).entries(), session_id@) is Some,
                Err(e) => lookup(old(self).entries(), session_id@) is None && e@ == "Session "@
                    + session_id@ + " not found"@,
            },
    {
        proof {
            assoc::lemma_unique_without(self.entries(), session_id@);
            lemma_without_len(self.entries(), session_id@);
        }
        match cache_pop(&mut self.sessions, session_id) {
            Some(_) => Ok(()),
            None => Err(text::cat3("Session ", session_id, " not found")),
        }
    }

    /// Whether a session is in use.
    pub fn has_session(&self, session_id: &str) -> (r: bool)
        ensures
            r == (lookup(self.entries(), session_id@) is Some),
    {
        cache_contains(&self.sessions, session_id)
    }

    /// The number of sessions in use.
    pub fn session_count(&self) -> (r: usize)
        ensures
            r == self.entries().len(),
    {
        cache_len(&self.sessions)
    }
}

/// The sessions after one of them has been used.
pub open spec fn used(s: Seq<(Seq<char>, u64)>, k: Seq<char>) -> Seq<(Seq<char>, u64)> {
    match lookup(s, k) {
        Some(v) => seq![(k, v)] + without(s, k),
        None => s,
    }
}

/// The sessions after one has been asked for: where it is new, the least
/// recently used one makes room if there is none.
pub open spec fn created(
    s: Seq<(Seq<char>, u64)>,
    limit: usize,
    k: Seq<char>,
    agent: u64,
) -> Seq<(Seq<char>, u64)> {
    match lookup(s, k) {
        Some(_) => used(s, k),
        None => seq![(k, agent)] + if s.len() == limit {
            s.drop_last()
        } else {
            s
        },
    }
}

proof fn lemma_without_len(s: Seq<(Seq<char>, u64)>, k: Seq<char>)
    ensures
        without(s, k).len() <= s.len(),
        lookup(s, k) is Some ==> without(s, k).len() < s.len(),
    decreases s.len(),
{
    if s.len() > 0 {
        lemma_without_len(s.drop_first(), k);
    }
}

proof fn lemma_front_unique(s: Seq<(Seq<char>, u64)>, k: Seq<char>, v: u64)
    requires
        unique_keys(s),
        lookup(s, k) is None,
    ensures
        unique_keys(seq![(k, v)] + s),
{
    assoc::lemma_lookup_is_some(s, k);
    let t = seq![(k, v)] + s;
    assert forall|i: int, j: int| 0 <= i < j < t.len() implies (#[trigger] t[i]).0 != (
    #[trigger] t[j]).0 by {
        assert(t[j] == s[j - 1]);
        if i > 0 {
            assert(t[i] == s[i - 1]);
        }
    }
}

proof fn lemma_used(s: Seq<(Seq<char>, u64)>, k: Seq<char>)
    requires
        unique_keys(s),
    ensures
        unique_keys(used(s, k)),
        used(s, k).len() <= s.len(),
{
    if let Some(v) = lookup(s, k) {
        assoc::lemma_unique_without(s, k);
        assoc::lemma_lookup_without(s, k, k);
        lemma_without_len(s, k);
        lemma_front_unique(without(s, k), k, v);
    }
}

proof fn lemma_lookup_drop_last(s: Seq<(Seq<char>, u64)>, k: Seq<char>)
    requires
        s.len() > 0,
        lookup(s, k) is None,
    ensures
        lookup(s.drop_last(), k) is None,
{
    assoc::lemma_lookup_is_some(s, k);
    assoc::lemma_lookup_is_some(s.drop_last(), k);
    if lookup(s.drop_last(), k) is Some {
        let i = choose|i: int|
            0 <= i < s.drop_last().len() && (#[trigger] s.drop_last()[i]).0 == k;
        assert(s[i].0 == k);
    }
}

proof fn lemma_created(s: Seq<(Seq<char>, u64)>, limit: usize, k: Seq<char>, agent: u64)
    requires
        unique_keys(s),
        s.len() <= limit,
        limit > 0,
    ensures
        unique_keys(created(s, limit, k, agent)),
        created(s, limit, k, agent).len() <= limit,
{
    match lookup(s, k) {
        Some(_) => {
            lemma_used(s, k);
        },
        None => {
            if s.len() == limit {
                lemma_lookup_drop_last(s, k);
                lemma_front_unique(s.drop_last(), k, agent);
            } else {
                lemma_front_unique(s, k, agent);
            }
        },
    }
}

/// A session that was asked for is in use, with the agent that it had or the new
/// one, and is the last to make room.
pub proof fn law_created_session_is_kept(
    s: Seq<(Seq<char>, u64)>,
    limit: usize,
    k: Seq<char>,
    agent: u64,
)
    ensures
        lookup(created(s, limit, k, agent), k) == match lookup(s, k) {
            Some(existing) => Some(existing),
            None => Some(agent),
        },
        created(s, limit, k, agent)[0].0 == k,
{
    assert(created(s, limit, k, agent)[0].0 == k);
}

/// A new session takes the place of the least recently used one at most: every
/// other session keeps its agent.
pub proof fn law_only_oldest_makes_room(
    s: Seq<(Seq<char>, u64)>,
    limit: usize,
    k: Seq<char>,
    agent: u64,
    other: Seq<char>,
)
    requires
        unique_keys(s),
        other != k,
        s.len() < limit || (s.len() > 0 && s.last().0 != other),
    ensures
        lookup(created(s, limit, k, agent), other) == lookup(s, other),
{
    let c = created(s, limit, k, agent);
    match lookup(s, k) {
        Some(v) => {
            assert(c.drop_first() =~= without(s, k));
            assoc::lemma_lookup_without(s, k, other);
        },
        None => {
            if s.len() == limit {
                assert(c.drop_first() =~= s.drop_last());
                lemma_lookup_front(s, other);
            } else {
                assert(c.drop_first() =~= s);
            }
        },
    }
}

proof fn lemma_lookup_front(s: Seq<(Seq<char>, u64)>, k: Seq<char>)
    requires
        s.len() > 0,
        s.last().0 != k,
    ensures
        lookup(s.drop_last(), k) == lookup(s, k),
    decreases s.len(),
{
    if s.len() > 1 {
        assert(s.drop_first().drop_last() =~= s.drop_last().drop_first());
        assert(s.drop_last()[0] == s[0]);
        lemma_lookup_front(s.drop_first(), k);
    } else {
        assert(s[0] == s.last());
        assert(lookup(s.drop_first(), k) is None);
        assert(lookup(s.drop_last(), k) is None);
    }
}

/// The provider and the model that are used where a session has none: both have
/// to be set, and the first of two settings counts.
pub open spec fn default_provider(
    provider: Option<Seq<char>>,
    provider_type: Option<Seq<char>>,
    model: Option<Seq<char>>,
    provider_model: Option<Seq<char>>,
) -> Option<(Seq<char>, Seq<char>)> {
    let p = if provider is Some {
        provider
    } else {
        provider_type
    };
    let m = if model is Some {
        model
    } else {
        provider_model
    };
    match (p, m) {
        (Some(p), Some(m)) => Some((p, m)),
        _ => None,
    }
}

/// The provider and the model that are used where a session has none, out of the
/// values of `GOOSE_DEFAULT_PROVIDER`, `GOOSE_PROVIDER__TYPE`,
/// `GOOSE_DEFAULT_MODEL` and `GOOSE_PROVIDER__MODEL`.
pub fn configure_default_provider(
    provider: Option<String>,
    provider_type: Option<String>,
    model: Option<String>,
    provider_model: Option<String>,
) -> (r: Option<(String, String)>)
    ensures
        r.deep_view() == default_provider(
            provider.deep_view(),
            provider_type.deep_view(),
            model.deep_view(),
            provider_model.deep_view(),
        ),
{
    let p = if provider.is_some() {
        provider
    } else {
        provider_type
    };
    let m = if model.is_some() {
        model
    } else {
        provider_model
    };
    match (p, m) {
        (Some(p), Some(m)) => Some((p, m)),
        _ => None,
    }
}

} // verus!
