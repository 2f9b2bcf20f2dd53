//! The availability lookup for one source: a per-session memo in front of
//! the shared cache in front of the existence check.
//!
//! The lookup makes no request itself. [`Available::query_changed`] says
//! which address to check, if any; whoever drives it makes the request and
//! hands the outcome to [`Available::resolved`].

use crate::keyed::StringMap;
use crate::state::{
    after_exists_lookup, exists_lookup, fresh_entry, AppCache, CacheMap, EXISTS_TTL_MS,
};
use vstd::prelude::*;

verus! {

/// The places where a name can be taken.
#[derive(Debug, Clone, Copy, PartialEq, Eq, Hash, Structural)]
pub enum Sources {
    /// A package in the npm registry.
    PackageNpm,
    /// An organization in the npm registry.
    OrgNpm,
    /// A user or organization on GitHub.
    Github,
}

/// The name under which a source goes into a cache key.
pub open spec fn source_id(source: Sources) -> Seq<char> {
    match source {
        Sources::PackageNpm => "packagenpm"@,
        Sources::OrgNpm => "orgnpm"@,
        Sources::Github => "github"@,
    }
}

/// The cache key of a lookup: the source's name, a hyphen, the candidate.
pub open spec fn key_of(source: Sources, name: Seq<char>) -> Seq<char> {
    source_id(source) + "-"@ + name
}

/// What stands before the candidate in the address to check.
pub open spec fn url_prefix(source: Sources) -> Seq<char> {
    match source {
        Sources::PackageNpm => "https://www.npmjs.com/package/"@,
        Sources::OrgNpm => "https://www.npmjs.com/org/"@,
        Sources::Github => "https://github.com/"@,
    }
}

/// The address whose absence means that `name` is free at `source`.
pub open spec fn url_of(source: Sources, name: Seq<char>) -> Seq<char> {
    url_prefix(source) + name
}

impl Sources {
    /// The name under which this source goes into a cache key.
    pub fn id(self) -> (r: &'static str)
        ensures
            r@ == source_id(self),
    {
        match self {
            Sources::PackageNpm => "packagenpm",
            Sources::OrgNpm => "orgnpm",
            Sources::Github => "github",
        }
    }
}

/// The cache key of the lookup of `name` at `source`.
pub fn lookup_key(source: Sources, name: &String) -> (r: String)
    ensures
        r@ == key_of(source, name@),
{
    let mut key = String::from_str(source.id());
    key.append("-");
    key.append(name.as_str());
    key
}

/// The address to check for the lookup of `name` at `source`.
pub fn lookup_url(source: Sources, name: &String) -> (r: String)
    ensures
        r@ == url_of(source, name@),
{
    let prefix = match source {
        Sources::PackageNpm => "https://www.npmjs.com/package/",
        Sources::OrgNpm => "https://www.npmjs.com/org/",
        Sources::Github => "https://github.com/",
    };
    let mut url = String::from_str(prefix);
    url.append(name.as_str());
    url
}

/// What the answer to a request says about the name: it is free exactly
/// when the page was not found (status 404). Any other status, and a
/// request that got no answer (`None`), count as taken.
pub fn page_exists(status: Option<u16>) -> (r: bool)
    ensures
        r == (status == Some(404u16)),
{
    match status {
        Some(code) => code == 404,
        None => false,
    }
}

/// What is known of a name that is being looked up.
#[derive(Debug, Clone, Copy, PartialEq, Eq, Structural)]
pub enum AvailabilityStatus {
    /// The check is under way.
    Loading,
    /// The name is free (`true`) or taken (`false`).
    Known(bool),
}

/// The mathematical state of the lookup for one source.
pub struct Lookup {
    pub source: Sources,
    /// The results that this session has seen, by cache key.
    pub memo: Map<Seq<char>, bool>,
    /// The candidate that the status is about.
    pub query: Seq<char>,
    /// `None` while there is no candidate.
    pub status: Option<AvailabilityStatus>,
}

impl Lookup {
    /// What memo and cache together know of `query` at time `now`; the memo
    /// is asked first.
    pub open spec fn known(self, cache: CacheMap, query: Seq<char>, now: u64) -> Option<bool> {
        let key = key_of(self.source, query);
        if self.memo.contains_key(key) {
            Some(self.memo[key])
        } else {
            exists_lookup(cache, key, now)
        }
    }

    /// The lookup after the candidate changed to `query`. An empty
    /// candidate leaves it idle. Otherwise the status is what memo or cache
    /// know, and a result found in the cache alone goes into the memo; where
    /// neither knows, the lookup is loading.
    pub open spec fn query_changed(self, cache: CacheMap, query: Seq<char>, now: u64) -> Lookup {
        let key = key_of(self.source, query);
        if query.len() == 0 {
            Lookup { query, status: None, ..self }
        } else {
            match self.known(cache, query, now) {
                Some(free) => Lookup {
                    memo: self.memo.insert(key, free),
                    query,
                    status: Some(AvailabilityStatus::Known(free)),
                    ..self
                },
                None => Lookup { query, status: Some(AvailabilityStatus::Loading), ..self },
            }
        }
    }

    /// The cache after the candidate changed to `query`: it was read under
    /// the lookup's key exactly when the candidate is not empty and the memo
    /// does not know it.
    pub open spec fn cache_after_query(self, cache: CacheMap, query: Seq<char>, now: u64)
        -> CacheMap {
        let key = key_of(self.source, query);
        if query.len() == 0 || self.memo.contains_key(key) {
            cache
        } else {
            after_exists_lookup(cache, key, now)
        }
    }

    /// The address to check after the candidate changed to `query`: none
    /// for an empty candidate, none where memo or cache know the result.
    pub open spec fn fetch_for_query(self, cache: CacheMap, query: Seq<char>, now: u64)
        -> Option<Seq<char>> {
        if query.len() == 0 || self.known(cache, query, now).is_some() {
            None
        } else {
            Some(url_of(self.source, query))
        }
    }

    /// The lookup after the check of `query` came back with `outcome`
    /// (`None`: the check failed). A result goes into the memo whatever the
    /// candidate is by now. The status follows only if `query` is still the
    /// candidate: it becomes the result, and "taken" for a failed check.
    pub open spec fn resolved(self, query: Seq<char>, outcome: Option<bool>) -> Lookup {
        let key = key_of(self.source, query);
        if query.len() == 0 {
            self
        } else {
            let memo = match outcome {
                Some(free) => self.memo.insert(key, free),
                None => self.memo,
            };
            let status = if query == self.query {
                match outcome {
                    Some(free) => Some(AvailabilityStatus::Known(free)),
                    None => Some(AvailabilityStatus::Known(false)),
                }
            } else {
                self.status
            };
            Lookup { memo, status, ..self }
        }
    }

    /// The cache after the check of `query` came back with `outcome` at
    /// time `now`: a result is written under the lookup's key, a failed
    /// check leaves no trace.
    pub open spec fn cache_after_result(
        self,
        cache: CacheMap,
        query: Seq<char>,
        outcome: Option<bool>,
        now: u64,
    ) -> CacheMap {
        match outcome {
            Some(free) if query.len() > 0 => cache.insert(
                key_of(self.source, query),
                fresh_entry(free, now),
            ),
            _ => cache,
        }
    }
}

/// The availability lookup for one source.
pub struct Available {
    source: Sources,
    memo: StringMap<bool>,
    query: String,
    status: Option<AvailabilityStatus>,
}

impl View for Available {
    type V = Lookup;

    closed spec fn view(&self) -> Lookup {
        Lookup {
            source: self.source,
            memo: self.memo@,
            query: self.query@,
            status: self.status,
        }
    }
}

impl Available {
    /// A lookup for `source` with no candidate and an empty memo.
    pub fn new(source: Sources) -> (r: Self)
        ensures
            r@ == (Lookup {
                source,
                memo: Map::<Seq<char>, bool>::empty(),
                query: Seq::<char>::empty(),
                status: None,
            }),
    {
        Available { source, memo: StringMap::new(), query: String::new(), status: None }
    }

    /// The source that this lookup asks.
    pub fn source(&self) -> (r: Sources)
        ensures
            r == self@.source,
    {
        self.source
    }

    /// `None` while there is no candidate; otherwise what is known of it.
    pub fn status(&self) -> (r: Option<AvailabilityStatus>)
        ensures
            r == self@.status,
    {
        self.status
    }

    /// Whether a check is under way.
    pub fn loading(&self) -> (r: bool)
        ensures
            r == (self@.status == Some(AvailabilityStatus::Loading)),
    {
        match self.status {
            Some(AvailabilityStatus::Loading) => true,
            _ => false,
        }
    }

    /// Whether the candidate is known to be free.
    pub fn available(&self) -> (r: bool)
        ensures
            r == (self@.status == Some(AvailabilityStatus::Known(true))),
    {
        match self.status {
            Some(AvailabilityStatus::Known(free)) => free,
            _ => false,
        }
    }

    /// The candidate changed to `query`, at time `now`. Returns the address
    /// to check, where memo and cache do not know the result.
    pub fn query_changed(&mut self, cache: &mut AppCache, query: String, now: u64) -> (fetch:
        Option<String>)
        ensures
            final(self)@ == old(self)@.query_changed(old(cache)@, query@, now),
            final(cache)@ == old(self)@.cache_after_query(old(cache)@, query@, now),
            match fetch {
                Some(url) => old(self)@.fetch_for_query(old(cache)@, query@, now) == Some(url@),
                None => old(self)@.fetch_for_query(old(cache)@, query@, now).is_none(),
            },
    {
        if query.as_str().is_empty() {
            self.query = query;
            self.status = None;
            return None;
        }
        let key = lookup_key(self.source, &query);
        let memoized = match self.memo.get(&key) {
            Some(free) => Some(*free),
            None => None,
        };
        let fetch = match memoized {
            Some(free) => {
                assert(self.memo@.insert(key@, free) =~= self.memo@);
                self.status = Some(AvailabilityStatus::Known(free));
                None
            },
            None => match cache.get_exists(key.clone(), now) {
                Some(free) => {
                    self.memo.insert(key, free);
                    self.status = Some(AvailabilityStatus::Known(free));
                    None
                },
                None => {
                    self.status = Some(AvailabilityStatus::Loading);
                    Some(lookup_url(self.source, &query))
                },
            },
        };
        self.query = query;
        fetch
    }

    /// The check of `query` came back with `outcome` at time `now`; `None`
    /// stands for a check that failed. A result is written to cache and
    /// memo. The status changes only if `query` is still the candidate.
    pub fn resolved(&mut self, cache: &mut AppCache, query: String, outcome: Option<bool>, now: u64)
        ensures
            final(self)@ == old(self)@.resolved(query@, outcome),
            final(cache)@ == old(self)@.cache_after_result(old(cache)@, query@, outcome, now),
    {
        if query.as_str().is_empty() {
            return ;
        }
        let current = self.query == query;
        match outcome {
            Some(free) => {
                let key = lookup_key(self.source, &query);
                cache.set_exists(key.clone(), free, now);
                self.memo.insert(key, free);
                if current {
                    self.status = Some(AvailabilityStatus::Known(free));
                }
            },
            None => {
                if current {
                    self.status = Some(AvailabilityStatus::Known(false));
                }
            },
        }
    }
}

/// What stands before the candidate in a cache key tells the source.
proof fn lemma_key_tells_source(a: Sources, b: Sources, x: Seq<char>, y: Seq<char>)
    requires
        key_of(a, x) == key_of(b, y),
    ensures
        a == b,
{
    reveal_strlit("packagenpm");
    reveal_strlit("orgnpm");
    reveal_strlit("github");
    reveal_strlit("-");
    let ka = key_of(a, x);
    let kb = key_of(b, y);
    assert(ka[0] == source_id(a)[0]);
    assert(kb[0] == source_id(b)[0]);
}

/// Two lookups share a cache key only if they ask the same source for the
/// same name.
pub proof fn law_keys_are_collision_free(a: Sources, x: Seq<char>, b: Sources, y: Seq<char>)
    requires
        key_of(a, x) == key_of(b, y),
    ensures
        a == b,
        x == y,
{
    lemma_key_tells_source(a, b, x, y);
    let head = source_id(a) + "-"@;
    assert(key_of(a, x) == head + x);
    assert(key_of(b, y) == head + y);
    assert(x.len() == y.len()) by {
        assert((head + x).len() == head.len() + x.len());
        assert((head + y).len() == head.len() + y.len());
    }
    assert forall|i: int| 0 <= i < x.len() implies x[i] == y[i] by {
        assert((head + x)[head.len() + i] == x[i]);
        assert((head + y)[head.len() + i] == y[i]);
    }
    assert(x =~= y);
}

/// An empty candidate starts no check: the lookup is idle, no address is to
/// be checked, and the cache is not touched.
pub proof fn law_empty_query_is_idle(lookup: Lookup, cache: CacheMap, now: u64)
    ensures
        lookup.query_changed(cache, Seq::<char>::empty(), now).status.is_none(),
        lookup.fetch_for_query(cache, Seq::<char>::empty(), now).is_none(),
        lookup.cache_after_query(cache, Seq::<char>::empty(), now) == cache,
{
}

/// The cache is asked before the network: where the cache holds a result
/// for the lookup's key that is still valid, the lookup resolves to it
/// without any address to check, and remembers it in the memo.
pub proof fn law_cache_before_network(
    lookup: Lookup,
    cache: CacheMap,
    query: Seq<char>,
    free: bool,
    now: u64,
)
    requires
        query.len() > 0,
        !lookup.memo.contains_key(key_of(lookup.source, query)),
        exists_lookup(cache, key_of(lookup.source, query), now) == Some(free),
    ensures
        lookup.fetch_for_query(cache, query, now).is_none(),
        lookup.query_changed(cache, query, now).status == Some(AvailabilityStatus::Known(free)),
        lookup.query_changed(cache, query, now).memo == lookup.memo.insert(
            key_of(lookup.source, query),
            free,
        ),
        lookup.cache_after_query(cache, query, now) == cache,
{
}

/// Where neither memo nor cache know the candidate, the lookup is loading
/// and asks for the check of the source's address for that candidate.
pub proof fn law_miss_starts_check(lookup: Lookup, cache: CacheMap, query: Seq<char>, now: u64)
    requires
        query.len() > 0,
        lookup.known(cache, query, now).is_none(),
    ensures
        lookup.fetch_for_query(cache, query, now) == Some(url_of(lookup.source, query)),
        lookup.query_changed(cache, query, now).status == Some(AvailabilityStatus::Loading),
        lookup.query_changed(cache, query, now).memo == lookup.memo,
{
}

/// A result that came in is not asked for again by the same session: after
/// `resolved` with a result for `query`, a change of the candidate to
/// `query` resolves to that result with no address to check, at any time
/// and whatever the cache holds by then.
pub proof fn law_session_remembers(
    lookup: Lookup,
    query: Seq<char>,
    free: bool,
    cache: CacheMap,
    now: u64,
)
    requires
        query.len() > 0,
    ensures
        lookup.resolved(query, Some(free)).fetch_for_query(cache, query, now).is_none(),
        lookup.resolved(query, Some(free)).query_changed(cache, query, now).status == Some(
            AvailabilityStatus::Known(free),
        ),
{
}

/// A result that came in is shared: within [`EXISTS_TTL_MS`]
/// of its arrival, any lookup for the same source that does not have the
/// candidate in its own memo resolves to it from the cache, with no
/// address to check.
pub proof fn law_sessions_share_results(
    first: Lookup,
    second: Lookup,
    cache: CacheMap,
    query: Seq<char>,
    free: bool,
    written: u64,
    now: u64,
)
    requires
        query.len() > 0,
        first.source == second.source,
        !second.memo.contains_key(key_of(second.source, query)),
        now - written <= EXISTS_TTL_MS,
    ensures
        second.fetch_for_query(
            first.cache_after_result(cache, query, Some(free), written),
            query,
            now,
        ).is_none(),
        second.query_changed(
            first.cache_after_result(cache, query, Some(free), written),
            query,
            now,
        ).status == Some(AvailabilityStatus::Known(free)),
{
}

/// A result for a candidate that has been replaced meanwhile does not
/// touch the status.
pub proof fn law_stale_result_keeps_status(lookup: Lookup, query: Seq<char>, outcome: Option<bool>)
    requires
        query != lookup.query,
    ensures
        lookup.resolved(query, outcome).status == lookup.status,
        lookup.resolved(query, outcome).query == lookup.query,
{
}

/// A check that failed counts as "taken" for the candidate it was made
/// for, and is remembered nowhere.
pub proof fn law_failed_check_counts_as_taken(
    lookup: Lookup,
    cache: CacheMap,
    query: Seq<char>,
    now: u64,
)
    requires
        query.len() > 0,
        query == lookup.query,
    ensures
        lookup.resolved(query, None).status == Some(AvailabilityStatus::Known(false)),
        lookup.resolved(query, None).memo == lookup.memo,
        lookup.cache_after_result(cache, query, None, now) == cache,
{
}

} // verus!
