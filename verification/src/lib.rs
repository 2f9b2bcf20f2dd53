//! Is a project name still free? For a candidate name, each of a few
//! sources is asked whether the name is taken there.
//!
//! - [`state`]: the cache of results, which expire.
//! - [`shared`]: that cache behind a lock, with a clock, for all requests.
//! - [`signals`]: the debounce engine that turns typing into candidates.
//! - [`available`]: the lookup for one source: memo, cache, then the check.
//! - [`names`]: the list of names that the page offers as candidates.
//! - [`badge`]: what a badge shows for a lookup.
//! - [`keyed`]: the string-keyed map under cache and memo.

pub mod available;
pub mod badge;
pub mod keyed;
pub mod names;
pub mod shared;
pub mod signals;
pub mod state;
