//! The expiring cache of lookup results.
//!
//! Time is a reading of a monotonic clock in milliseconds, handed in by the
//! caller, so that every operation is a function of its arguments.

use crate::keyed::StringMap;
use vstd::prelude::*;

verus! {

/// How long an existence result stays valid: 24 hours, in milliseconds.
pub const EXISTS_TTL_MS: u64 = 86_400_000;

/// A value together with the time it was stored and how long it stays valid.
#[derive(Debug, PartialEq, Eq)]
pub struct Cached<T> {
    pub value: T,
    pub duration: u64,
    pub cached_at: u64,
}

impl<T> Cached<T> {
    /// Whether the validity period has run out at time `now`: more than
    /// `duration` milliseconds have passed since `cached_at`. A clock reading
    /// that lies before `cached_at` counts as no time passed.
    pub open spec fn expired_at(self, now: u64) -> bool {
        now - self.cached_at > self.duration
    }

    /// `value` as stored at time `cached_at`, valid for `duration`
    /// milliseconds.
    pub fn new(value: T, cached_at: u64, duration: u64) -> (r: Self)
        ensures
            r.value == value,
            r.cached_at == cached_at,
            r.duration == duration,
    {
        Cached { value, duration, cached_at }
    }

    /// Whether the validity period has run out at time `now`.
    pub fn is_expired(&self, now: u64) -> (r: bool)
        ensures
            r == self.expired_at(now),
    {
        now > self.cached_at && now - self.cached_at > self.duration
    }
}

impl<T: Copy> Clone for Cached<T> {
    /// A copy with the same value and times.
    fn clone(&self) -> (r: Self)
        ensures
            r == *self,
    {
        Cached { value: self.value, duration: self.duration, cached_at: self.cached_at }
    }
}

/// What the cache holds under a key.
#[derive(Debug, PartialEq, Eq)]
pub enum CacheData {
    /// An existence result with its expiry.
    Exists(Cached<bool>),
    /// A fetched document; it never expires.
    Html(String),
    /// Stands where an existence result was found to have run out.
    Expired,
}

/// The mathematical value of a [`CacheData`].
pub enum CacheEntry {
    Exists(Cached<bool>),
    Html(Seq<char>),
    Expired,
}

impl View for CacheData {
    type V = CacheEntry;

    open spec fn view(&self) -> CacheEntry {
        match *self {
            CacheData::Exists(c) => CacheEntry::Exists(c),
            CacheData::Html(s) => CacheEntry::Html(s@),
            CacheData::Expired => CacheEntry::Expired,
        }
    }
}

impl Clone for CacheData {
    /// A copy that stands for the same entry.
    fn clone(&self) -> (r: Self)
        ensures
            r@ == self@,
    {
        match self {
            CacheData::Exists(c) => CacheData::Exists(c.clone()),
            CacheData::Html(s) => CacheData::Html(s.clone()),
            CacheData::Expired => CacheData::Expired,
        }
    }
}

/// What a cache holds, as a map from key to entry.
pub type CacheMap = Map<Seq<char>, CacheEntry>;

/// The entry that an existence result written at time `now` leaves behind.
pub open spec fn fresh_entry(exists: bool, now: u64) -> CacheEntry {
    CacheEntry::Exists(Cached { value: exists, duration: EXISTS_TTL_MS, cached_at: now })
}

/// What reading the existence result under `key` at time `now` returns: the
/// stored value while an existence entry is still valid, nothing otherwise.
pub open spec fn exists_lookup(m: CacheMap, key: Seq<char>, now: u64) -> Option<bool> {
    if m.contains_key(key) {
        match m[key] {
            CacheEntry::Exists(c) => if c.expired_at(now) {
                None
            } else {
                Some(c.value)
            },
            _ => None,
        }
    } else {
        None
    }
}

/// What reading the existence result under `key` at time `now` leaves in the
/// cache: an existence entry that has run out is replaced by `Expired`, and
/// nothing else changes.
pub open spec fn after_exists_lookup(m: CacheMap, key: Seq<char>, now: u64) -> CacheMap {
    if m.contains_key(key) && (m[key] matches CacheEntry::Exists(c) && c.expired_at(now)) {
        m.insert(key, CacheEntry::Expired)
    } else {
        m
    }
}

/// What reading the document under `key` returns.
pub open spec fn html_lookup(m: CacheMap, key: Seq<char>) -> Option<Seq<char>> {
    if m.contains_key(key) {
        match m[key] {
            CacheEntry::Html(text) => Some(text),
            _ => None,
        }
    } else {
        None
    }
}

/// A cache from string keys to entries. Existence results expire; the entry
/// of one that has run out is replaced at the first read that finds it so.
pub struct AppCache {
    entries: StringMap<CacheData>,
}

impl View for AppCache {
    type V = CacheMap;

    closed spec fn view(&self) -> CacheMap {
        Map::new(
            |k: Seq<char>| self.entries@.contains_key(k),
            |k: Seq<char>| self.entries@[k]@,
        )
    }
}

impl AppCache {
    /// An empty cache.
    pub fn new() -> (r: Self)
        ensures
            r@ == Map::<Seq<char>, CacheEntry>::empty(),
    {
        let r = AppCache { entries: StringMap::new() };
        assert(r@ =~= Map::<Seq<char>, CacheEntry>::empty());
        r
    }

    /// A copy of the entry stored under `key`, if there is one. The cache is
    /// left as it was.
    pub fn get_value(&self, key: String) -> (r: Option<CacheData>)
        ensures
            match r {
                Some(data) => self@.contains_key(key@) && data@ == self@[key@],
                None => !self@.contains_key(key@),
            },
    {
        match self.entries.get(&key) {
            Some(data) => Some(data.clone()),
            None => None,
        }
    }

    /// Stores `data` under `key`, over whatever was there, and returns the
    /// entry that it replaced.
    pub fn set_value(&mut self, key: String, data: CacheData) -> (r: Option<CacheData>)
        ensures
            final(self)@ == old(self)@.insert(key@, data@),
            match r {
                Some(prev) => old(self)@.contains_key(key@) && prev@ == old(self)@[key@],
                None => !old(self)@.contains_key(key@),
            },
    {
        let ghost key_view = key@;
        let ghost data_view = data@;
        let prev = self.entries.insert(key, data);
        assert(self@ =~= old(self)@.insert(key_view, data_view));
        prev
    }

    /// The existence result stored under `key`, as far as it is still valid
    /// at time `now`. An existence entry that has run out is replaced by
    /// `Expired`, so that the next read need not look at its times again.
    pub fn get_exists(&mut self, key: String, now: u64) -> (r: Option<bool>)
        ensures
            r == exists_lookup(old(self)@, key@, now),
            final(self)@ == after_exists_lookup(old(self)@, key@, now),
    {
        match self.get_value(key.clone()) {
            Some(CacheData::Exists(cached)) => {
                if cached.is_expired(now) {
                    self.set_value(key, CacheData::Expired);
                    None
                } else {
                    Some(cached.value)
                }
            },
            _ => None,
        }
    }

    /// Stores the existence result `exists` under `key` as written at time
    /// `now`, valid for [`EXISTS_TTL_MS`], over whatever was there. Returns
    /// `Some` exactly when the key held an entry before.
    pub fn set_exists(&mut self, key: String, exists: bool, now: u64) -> (r: Option<()>)
        ensures
            final(self)@ == old(self)@.insert(key@, fresh_entry(exists, now)),
            r.is_some() == old(self)@.contains_key(key@),
    {
        let entry = CacheData::Exists(Cached::new(exists, now, EXISTS_TTL_MS));
        match self.set_value(key, entry) {
            Some(_) => Some(()),
            None => None,
        }
    }

    /// A copy of the document stored under `key`, if the entry there is one.
    pub fn get_html(&self, key: String) -> (r: Option<String>)
        ensures
            match r {
                Some(text) => html_lookup(self@, key@) == Some(text@),
                None => html_lookup(self@, key@).is_none(),
            },
    {
        match self.get_value(key) {
            Some(CacheData::Html(text)) => Some(text),
            _ => None,
        }
    }

    /// Stores the document `text` under `key`, over whatever was there.
    pub fn set_html(&mut self, key: String, text: String)
        ensures
            final(self)@ == old(self)@.insert(key@, CacheEntry::Html(text@)),
    {
        self.set_value(key, CacheData::Html(text));
    }
}

/// An existence result that was written at time `written` is read back at
/// time `now` as long as no more than [`EXISTS_TTL_MS`] have passed, and the
/// read leaves the cache as it was.
pub proof fn law_fresh_result_is_read_back(
    m: CacheMap,
    key: Seq<char>,
    exists: bool,
    written: u64,
    now: u64,
)
    requires
        now - written <= EXISTS_TTL_MS,
    ensures
        exists_lookup(m.insert(key, fresh_entry(exists, written)), key, now) == Some(exists),
        after_exists_lookup(m.insert(key, fresh_entry(exists, written)), key, now) == m.insert(
            key,
            fresh_entry(exists, written),
        ),
{
}

/// Once more than [`EXISTS_TTL_MS`] have passed since an existence result
/// was written, reading it returns nothing and leaves `Expired` in its
/// place; every later read, at whatever time, returns nothing as well and
/// changes nothing more.
pub proof fn law_stale_result_expires(
    m: CacheMap,
    key: Seq<char>,
    exists: bool,
    written: u64,
    now: u64,
    later: u64,
)
    requires
        now - written > EXISTS_TTL_MS,
    ensures
        exists_lookup(m.insert(key, fresh_entry(exists, written)), key, now).is_none(),
        after_exists_lookup(m.insert(key, fresh_entry(exists, written)), key, now) == m.insert(
            key,
            CacheEntry::Expired,
        ),
        exists_lookup(m.insert(key, CacheEntry::Expired), key, later).is_none(),
        after_exists_lookup(m.insert(key, CacheEntry::Expired), key, later) == m.insert(
            key,
            CacheEntry::Expired,
        ),
{
    let m1 = m.insert(key, fresh_entry(exists, written));
    assert(m1.insert(key, CacheEntry::Expired) =~= m.insert(key, CacheEntry::Expired));
}

/// Of two existence results written under one key the second wins: the
/// cache is as if the first had never been written, the validity period
/// runs from the second write, and the second value is read back within it.
pub proof fn law_last_write_wins(
    m: CacheMap,
    key: Seq<char>,
    first: bool,
    first_written: u64,
    second: bool,
    second_written: u64,
    now: u64,
)
    requires
        now - second_written <= EXISTS_TTL_MS,
    ensures
        m.insert(key, fresh_entry(first, first_written)).insert(
            key,
            fresh_entry(second, second_written),
        ) == m.insert(key, fresh_entry(second, second_written)),
        exists_lookup(
            m.insert(key, fresh_entry(first, first_written)).insert(
                key,
                fresh_entry(second, second_written),
            ),
            key,
            now,
        ) == Some(second),
{
    assert(m.insert(key, fresh_entry(first, first_written)).insert(
        key,
        fresh_entry(second, second_written),
    ) =~= m.insert(key, fresh_entry(second, second_written)));
}

/// Reading or writing under one key leaves what is stored under every other
/// key as it was.
pub proof fn law_other_keys_untouched(
    m: CacheMap,
    key: Seq<char>,
    other: Seq<char>,
    entry: CacheEntry,
    now: u64,
)
    requires
        other != key,
    ensures
        m.insert(key, entry).contains_key(other) == m.contains_key(other),
        m.contains_key(other) ==> m.insert(key, entry)[other] == m[other],
        after_exists_lookup(m, key, now).contains_key(other) == m.contains_key(other),
        m.contains_key(other) ==> after_exists_lookup(m, key, now)[other] == m[other],
        exists_lookup(m.insert(key, entry), other, now) == exists_lookup(m, other, now),
{
}

} // verus!
