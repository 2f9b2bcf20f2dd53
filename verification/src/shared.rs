//! The cache as the running program holds it: one store behind a lock,
//! shared by every request, with the clock that its expiry goes by.

use crate::available::{Available, Lookup};
use crate::names::{
    entries_in, entries_ok, entry_views, names_url, ww2_names, ww2_names_fetched, Entry, NamesStep,
};
use crate::state::{
    after_exists_lookup, exists_lookup, fresh_entry, html_lookup, AppCache, CacheData, CacheEntry,
    CacheMap,
};
use std::sync::{Arc, Mutex, MutexGuard};
use std::time::{Duration, Instant};
use vstd::prelude::*;

verus! {

/// `std::sync::Mutex`: a lock around a value. Nothing inside it is visible
/// here.
#[verifier::external_type_specification]
#[verifier::external_body]
#[verifier::reject_recursive_types(T)]
pub struct ExMutex<T: ?Sized>(Mutex<T>);

/// `std::sync::MutexGuard`: the right to the value behind a lock, until it
/// is dropped.
#[verifier::external_type_specification]
#[verifier::external_body]
#[verifier::reject_recursive_types(T)]
pub struct ExMutexGuard<'a, T: ?Sized + 'a>(MutexGuard<'a, T>);

/// `std::time::Instant`: a reading of the monotonic clock.
#[verifier::external_type_specification]
#[verifier::external_body]
pub struct ExInstant(Instant);

/// `Mutex::new`: a lock around `store`.
#[verifier::external_body]
fn new_lock(store: AppCache) -> Mutex<AppCache> {
    Mutex::new(store)
}

/// `Mutex::lock`: waits for the lock and returns its guard, or `None` where
/// the lock is poisoned. Nothing is said of what the store holds by then:
/// any holder of the lock may have changed it. No function of this module
/// asks for the lock while it holds a guard.
#[verifier::external_body]
fn lock_store<'a>(lock: &'a Mutex<AppCache>) -> Option<MutexGuard<'a, AppCache>> {
    lock.lock().ok()
}

/// `DerefMut::deref_mut` of the guard: the store that the lock protects.
#[verifier::external_body]
fn locked_store<'a, 'b>(guard: &'a mut MutexGuard<'b, AppCache>) -> &'a mut AppCache {
    &mut **guard
}

/// `Instant::now`: a reading of the monotonic clock.
#[verifier::external_body]
fn clock_now() -> Instant {
    Instant::now()
}

/// `Instant::elapsed`: the time that has passed since `origin` was read.
#[verifier::external_body]
fn elapsed_since(origin: &Instant) -> Duration {
    origin.elapsed()
}

/// `Duration::as_millis`: the whole milliseconds in `span`.
#[verifier::external_body]
fn whole_millis(span: &Duration) -> u128 {
    span.as_millis()
}

/// Whether a lookup that was `before` and is `after`, with `fetch` as the
/// address to check, took the step for a change of the candidate to `query`
/// against some cache at some time.
pub open spec fn steps_on_some_cache(
    before: Lookup,
    query: Seq<char>,
    after: Lookup,
    fetch: Option<Seq<char>>,
) -> bool {
    exists|cache: CacheMap, now: u64|
        after == #[trigger] before.query_changed(cache, query, now) && fetch
            == before.fetch_for_query(cache, query, now)
}

/// The clock reading for `millis` whole milliseconds: the number itself,
/// or the largest reading where it does not fit.
pub fn clock_reading(millis: u128) -> (r: u64)
    ensures
        r == if millis > u64::MAX {
            u64::MAX as int
        } else {
            millis as int
        },
{
    if millis > u64::MAX as u128 {
        u64::MAX
    } else {
        millis as u64
    }
}

/// [`AppCache::get_exists`] for a request that asked for the lock: `store`
/// is the store behind it, or `None` where the lock could not be taken,
/// which reads as a miss.
pub fn get_exists_in(store: Option<&mut AppCache>, key: String, now: u64) -> (r: Option<bool>)
    ensures
        match store {
            Some(cache) => r == exists_lookup(cache@, key@, now) && final(cache)@
                == after_exists_lookup(cache@, key@, now),
            None => r.is_none(),
        },
{
    match store {
        Some(cache) => cache.get_exists(key, now),
        None => None,
    }
}

/// [`AppCache::get_value`] for a request that asked for the lock: `store`
/// is the store behind it, or `None` where the lock could not be taken,
/// which reads as a miss.
pub fn get_value_in(store: Option<&AppCache>, key: String) -> (r: Option<CacheData>)
    ensures
        match r {
            Some(data) => store matches Some(cache) && cache@.contains_key(key@) && data@
                == cache@[key@],
            None => store matches Some(cache) ==> !cache@.contains_key(key@),
        },
{
    match store {
        Some(cache) => cache.get_value(key),
        None => None,
    }
}

/// [`AppCache::set_value`] for a request that asked for the lock: `store`
/// is the store behind it, or `None` where the lock could not be taken;
/// the write is then dropped and nothing is returned.
pub fn set_value_in(store: Option<&mut AppCache>, key: String, data: CacheData) -> (r: Option<
    CacheData,
>)
    ensures
        store matches Some(cache) ==> final(cache)@ == cache@.insert(key@, data@),
        match r {
            Some(prev) => store matches Some(cache) && cache@.contains_key(key@) && prev@
                == cache@[key@],
            None => store matches Some(cache) ==> !cache@.contains_key(key@),
        },
{
    match store {
        Some(cache) => cache.set_value(key, data),
        None => None,
    }
}

/// [`AppCache::set_exists`] for a request that asked for the lock: `store`
/// is the store behind it, or `None` where the lock could not be taken;
/// the write is then dropped and nothing is returned.
pub fn set_exists_in(store: Option<&mut AppCache>, key: String, exists: bool, now: u64) -> (r:
    Option<()>)
    ensures
        store matches Some(cache) ==> final(cache)@ == cache@.insert(
            key@,
            fresh_entry(exists, now),
        ),
        r.is_some() == (store matches Some(cache) && cache@.contains_key(key@)),
{
    match store {
        Some(cache) => cache.set_exists(key, exists, now),
        None => None,
    }
}

/// [`AppCache::get_html`] for a request that asked for the lock: `store`
/// is the store behind it, or `None` where the lock could not be taken,
/// which reads as a miss.
pub fn get_html_in(store: Option<&AppCache>, key: String) -> (r: Option<String>)
    ensures
        match r {
            Some(text) => store matches Some(cache) && html_lookup(cache@, key@) == Some(text@),
            None => store matches Some(cache) ==> html_lookup(cache@, key@).is_none(),
        },
{
    match store {
        Some(cache) => cache.get_html(key),
        None => None,
    }
}

/// [`ww2_names`] for a request that asked for the lock: `store` is the
/// store behind it, or `None` where the lock could not be taken; the
/// document then counts as not cached.
pub fn ww2_names_in(store: Option<&AppCache>) -> (r: NamesStep)
    ensures
        match r {
            NamesStep::Ready(entries) => {
                &&& store matches Some(cache) && html_lookup(cache@, names_url()) matches Some(
                    text,
                ) && entry_views(entries@) == entries_in(text)
                &&& entries_ok(entries@)
            },
            NamesStep::Fetch(url) => {
                &&& store matches Some(cache) ==> html_lookup(cache@, names_url()).is_none()
                &&& url@ == names_url()
            },
        },
{
    match store {
        Some(cache) => ww2_names(cache),
        None => ww2_names(&AppCache::new()),
    }
}

/// [`ww2_names_fetched`] for a request that asked for the lock: `store` is
/// the store behind it, or `None` where the lock could not be taken; the
/// document is then kept nowhere.
pub fn ww2_names_fetched_in(store: Option<&mut AppCache>, text: String) -> (r: Vec<Entry>)
    ensures
        store matches Some(cache) ==> final(cache)@ == cache@.insert(
            names_url(),
            CacheEntry::Html(text@),
        ),
        entry_views(r@) == entries_in(text@),
        entries_ok(r@),
{
    match store {
        Some(cache) => ww2_names_fetched(cache, text),
        None => ww2_names_fetched(&mut AppCache::new(), text),
    }
}

/// A handle to the cache that all requests share. Handles are cheap to
/// clone; all clones reach the same store.
///
/// Between two calls any other holder of a handle may have changed the
/// store, so no call can promise what it finds there. A lock that cannot be
/// taken counts as an empty cache for a read, and a write is dropped.
pub struct SharedCache {
    store: Arc<Mutex<AppCache>>,
    origin: Instant,
}

impl Clone for SharedCache {
    /// Another handle to the same store.
    fn clone(&self) -> Self {
        SharedCache { store: self.store.clone(), origin: self.origin }
    }
}

impl SharedCache {
    /// A handle to a new, empty store whose clock starts now.
    pub fn new() -> Self {
        SharedCache { store: Arc::new(new_lock(AppCache::new())), origin: clock_now() }
    }

    /// The time in milliseconds since the store was made; it stops at the
    /// largest number that fits.
    pub fn now(&self) -> u64 {
        let span = elapsed_since(&self.origin);
        clock_reading(whole_millis(&span))
    }

    /// [`AppCache::get_value`] on the shared store.
    pub fn get_value(&self, key: String) -> Option<CacheData> {
        let mut guard = lock_store(&self.store);
        let store = match &mut guard {
            Some(guard) => Some(&*locked_store(guard)),
            None => None,
        };
        get_value_in(store, key)
    }

    /// [`AppCache::set_value`] on the shared store.
    pub fn set_value(&self, key: String, data: CacheData) -> Option<CacheData> {
        let mut guard = lock_store(&self.store);
        let store = match &mut guard {
            Some(guard) => Some(locked_store(guard)),
            None => None,
        };
        set_value_in(store, key, data)
    }

    /// [`AppCache::get_exists`] on the shared store, at the current time.
    pub fn get_exists(&self, key: String) -> Option<bool> {
        let now = self.now();
        let mut guard = lock_store(&self.store);
        let store = match &mut guard {
            Some(guard) => Some(locked_store(guard)),
            None => None,
        };
        get_exists_in(store, key, now)
    }

    /// [`AppCache::set_exists`] on the shared store, at the current time.
    pub fn set_exists(&self, key: String, exists: bool) -> Option<()> {
        let now = self.now();
        let mut guard = lock_store(&self.store);
        let store = match &mut guard {
            Some(guard) => Some(locked_store(guard)),
            None => None,
        };
        set_exists_in(store, key, exists, now)
    }

    /// [`AppCache::get_html`] on the shared store.
    pub fn get_html(&self, key: String) -> Option<String> {
        let mut guard = lock_store(&self.store);
        let store = match &mut guard {
            Some(guard) => Some(&*locked_store(guard)),
            None => None,
        };
        get_html_in(store, key)
    }

    /// [`AppCache::set_html`] on the shared store.
    pub fn set_html(&self, key: String, text: String) {
        match lock_store(&self.store) {
            Some(mut guard) => locked_store(&mut guard).set_html(key, text),
            None => {},
        }
    }

    /// [`Available::query_changed`] against the shared store, at the
    /// current time. The lookup takes the step that it would take against
    /// some cache at some time: which cache it found is not known.
    pub fn query_changed(&self, lookup: &mut Available, query: String) -> (fetch: Option<String>)
        ensures
            steps_on_some_cache(
                old(lookup)@,
                query@,
                final(lookup)@,
                match fetch {
                    Some(url) => Some(url@),
                    None => None,
                },
            ),
    {
        let now = self.now();
        match lock_store(&self.store) {
            Some(mut guard) => {
                let store = locked_store(&mut guard);
                let ghost found = store@;
                let fetch = lookup.query_changed(store, query, now);
                assert(lookup@ == old(lookup)@.query_changed(found, query@, now));
                fetch
            },
            None => {
                let mut empty = AppCache::new();
                let ghost found = empty@;
                let fetch = lookup.query_changed(&mut empty, query, now);
                assert(lookup@ == old(lookup)@.query_changed(found, query@, now));
                fetch
            },
        }
    }

    /// [`Available::resolved`] against the shared store, at the current
    /// time. Where the lock cannot be taken, the result still reaches the
    /// lookup and its memo.
    pub fn resolved(&self, lookup: &mut Available, query: String, outcome: Option<bool>)
        ensures
            final(lookup)@ == old(lookup)@.resolved(query@, outcome),
    {
        let now = self.now();
        match lock_store(&self.store) {
            Some(mut guard) => {
                lookup.resolved(locked_store(&mut guard), query, outcome, now);
            },
            None => {
                let mut empty = AppCache::new();
                lookup.resolved(&mut empty, query, outcome, now);
            },
        }
    }

    /// [`ww2_names`] on the shared store. The entries that are ready are
    /// those of some document: which one the store held is not known.
    pub fn ww2_names(&self) -> (r: NamesStep)
        ensures
            match r {
                NamesStep::Ready(entries) => {
                    &&& exists|text: Seq<char>| entry_views(entries@) == #[trigger] entries_in(text)
                    &&& entries_ok(entries@)
                },
                NamesStep::Fetch(url) => url@ == names_url(),
            },
    {
        let mut guard = lock_store(&self.store);
        let store = match &mut guard {
            Some(guard) => Some(&*locked_store(guard)),
            None => None,
        };
        ww2_names_in(store)
    }

    /// [`ww2_names_fetched`] on the shared store.
    pub fn ww2_names_fetched(&self, text: String) -> (r: Vec<Entry>)
        ensures
            entry_views(r@) == entries_in(text@),
            entries_ok(r@),
    {
        let mut guard = lock_store(&self.store);
        let store = match &mut guard {
            Some(guard) => Some(locked_store(guard)),
            None => None,
        };
        ww2_names_fetched_in(store, text)
    }
}

} // verus!
