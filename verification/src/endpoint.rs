//! What a serving endpoint does with one request for one key: the conditional
//! read first, then the cache.

use vstd::prelude::*;
use crate::cache::{handed_back, last_modified_in, refilled, Cache, Timestamp};
use crate::freshness_gate::{is_unmodified_since, unmodified_since};
use crate::key::CacheKey;

verus! {

/// The answer to one request.
#[derive(Debug, Clone, PartialEq, Eq)]
pub enum Reply<V, E> {
    /// The client's copy is at least as new as the cache's: send no body.
    NotModified,
    /// The value, and the server's time when it was served.
    Fresh { value: V, served_at: Timestamp },
    /// The refill failed; the error is the fetch's own.
    Failed(E),
}

/// Whether a request with the token `newer_than` is answered without asking the cache.
pub open spec fn short_circuits(last: Option<Timestamp>, newer_than: Option<Timestamp>) -> bool {
    newer_than matches Some(token) && unmodified_since(last, token)
}

/// The reply that goes with the outcome of a `get` served at `now`.
pub open spec fn reply_for<V, E>(outcome: Result<V, E>, now: Timestamp) -> Reply<V, E> {
    match outcome {
        Ok(value) => Reply::Fresh { value, served_at: now },
        Err(error) => Reply::Failed(error),
    }
}

/// Makes the reply that goes with the outcome of a `get` served at `now`.
pub fn reply_to<V, E>(outcome: Result<V, E>, now: Timestamp) -> (reply: Reply<V, E>)
    ensures
        reply == reply_for(outcome, now),
{
    match outcome {
        Ok(value) => Reply::Fresh { value, served_at: now },
        Err(error) => Reply::Failed(error),
    }
}

/// Serves one request for `key` at `now`. Where the client sent a token and the
/// entry is older than it, the reply is `NotModified`: the cache is left alone
/// and `fetch` is not called. Otherwise the cache is asked, as by [`Cache::get`], and
/// the reply carries its value with the time `now`, or the fetch's error.
pub fn conditional_get<K: CacheKey, V: Clone, E, F: FnOnce() -> Result<V, E>>(
    cache: &mut Cache<K, V>,
    key: K,
    newer_than: Option<Timestamp>,
    now: Timestamp,
    fetch: F,
) -> (reply: Reply<V, E>)
    requires
        !short_circuits(last_modified_in(old(cache)@, key@), newer_than) && !old(cache).holds_fresh(key@, now)
            ==> call_requires(fetch, ()),
    ensures
        final(cache).spec_lifetime() == old(cache).spec_lifetime(),
        short_circuits(last_modified_in(old(cache)@, key@), newer_than) ==> {
            &&& reply is NotModified
            &&& final(cache)@ == old(cache)@
        },
        !short_circuits(last_modified_in(old(cache)@, key@), newer_than) && old(cache).holds_fresh(key@, now) ==> {
            &&& final(cache)@ == old(cache)@
            &&& reply matches Reply::Fresh { value, served_at }
            &&& served_at == now
            &&& cloned(old(cache)@[key@].value, value)
        },
        !short_circuits(last_modified_in(old(cache)@, key@), newer_than) && !old(cache).holds_fresh(key@, now)
            ==> exists|fetched: Result<V, E>, outcome: Result<V, E>|
            {
                &&& #[trigger] call_ensures(fetch, (), fetched)
                &&& final(cache)@ == refilled(old(cache)@, key@, now, fetched)
                &&& #[trigger] handed_back(fetched, outcome)
                &&& reply == reply_for(outcome, now)
            },
{
    match newer_than {
        Some(token) => {
            if is_unmodified_since(cache, &key, token) {
                return Reply::NotModified;
            }
        },
        None => {},
    }
    reply_to(cache.get(key, now, fetch), now)
}

} // verus!
