//! The cache that remembers for a while which user sent from which key, and
//! which channel the user has joined. Nothing in this file is proved.

use mini_moka::sync::Cache;
use std::time::Duration;
use vstd::prelude::*;

use crate::bbs::service::Session;
use crate::bbs::storage::UserPkHash;

verus! {

/// A concurrent cache that drops entries as they age and as it fills up.
/// Nothing is known of what it holds at a given moment.
#[verifier::external_type_specification]
#[verifier::external_body]
#[verifier::reject_recursive_types(K)]
#[verifier::reject_recursive_types(V)]
#[verifier::reject_recursive_types(S)]
pub struct ExCache<K, V, S>(Cache<K, V, S>);

/// The longest time to live that the cache's builder accepts, in seconds: a
/// thousand years of 365 days.
pub const LONGEST_TIME_TO_LIVE: u64 = 31_536_000_000;

/// `Cache::builder` with `max_capacity`, `time_to_live` and `build`: makes an
/// empty cache. The builder refuses a time to live of more than a thousand
/// years.
#[verifier::external_body]
pub(crate) fn new_sessions(max_capacity: u64, time_to_live_secs: u64) -> (sessions: Cache<
    UserPkHash,
    Session,
>)
    requires
        time_to_live_secs <= LONGEST_TIME_TO_LIVE,
{
    Cache::builder().max_capacity(max_capacity).time_to_live(
        Duration::from_secs(time_to_live_secs),
    ).build()
}

/// `Cache::get`: a copy of what the cache holds for a key. Whether it still
/// holds anything depends on the time that has passed and on what else was
/// stored, so the contract promises nothing.
#[verifier::external_body]
pub(crate) fn cached_session(sessions: &Cache<UserPkHash, Session>, key: &UserPkHash) -> (session:
    Option<Session>) {
    sessions.get(key)
}

/// `Cache::insert`: stores a value for a key, in place of what was stored
/// for it.
#[verifier::external_body]
pub(crate) fn cache_session(sessions: &Cache<UserPkHash, Session>, key: UserPkHash, session: Session) {
    sessions.insert(key, session)
}

} // verus!
