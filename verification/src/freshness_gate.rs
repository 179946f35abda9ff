//! The conditional read: a client that says how fresh its copy is can be told that
//! nothing newer is there, without a refill.

use vstd::prelude::*;
use crate::cache::{last_modified_in, Cache, CacheEntry, Timestamp};
use crate::key::CacheKey;

verus! {

/// Whether data last written at `last` is older than what a client holds that
/// presents `client_token`: there is a write stamp and it lies before the token.
pub open spec fn unmodified_since(last: Option<Timestamp>, client_token: Timestamp) -> bool {
    last matches Some(stamp) && stamp < client_token
}

/// Decides from the last write stamp alone; see [`unmodified_since`].
pub fn stamp_is_unmodified_since(last: Option<Timestamp>, client_token: Timestamp) -> (unmodified: bool)
    ensures
        unmodified == unmodified_since(last, client_token),
{
    match last {
        Some(stamp) => stamp < client_token,
        None => false,
    }
}

/// Whether the entry for `key` is older than `client_token`. `true` means
/// "unmodified": the caller has nothing new to send and must not refill on this
/// account. `false` means "possibly modified", also where the key was never written.
/// Only peeks: the cache is taken by shared reference and there is no fetch to call.
pub fn is_unmodified_since<K: CacheKey, V>(cache: &Cache<K, V>, key: &K, client_token: Timestamp) -> (unmodified:
    bool)
    ensures
        unmodified == unmodified_since(last_modified_in(cache@, key@), client_token),
{
    stamp_is_unmodified_since(cache.get_last_modified_time(key), client_token)
}

/// A client whose token is later than the last write of `k` is told "unmodified".
/// A token equal to the write stamp is not: the stamp has to lie strictly before
/// the token.
pub proof fn lemma_later_token_is_unmodified<Q, V>(
    store: Map<Q, CacheEntry<V>>,
    k: Q,
    client_token: Timestamp,
)
    requires
        store.contains_key(k),
        client_token > store[k].written_at,
    ensures
        unmodified_since(last_modified_in(store, k), client_token),
{
}

} // verus!
