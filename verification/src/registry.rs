//! The map of registered channels, and what is taken on trust about it.
//!
//! The map is a `dashmap::DashMap`. Its methods work through a shared
//! reference; here every change goes through an exclusive one, so that what
//! the map held before a call and what it holds after are two values that a
//! contract can tell apart.

use crate::channel::Channel;
use crate::channel::Channels;
use dashmap::DashMap;
use vstd::prelude::*;

verus! {

/// `dashmap::DashMap`, opaque but for what [`registered`] says it holds.
#[verifier::external_type_specification]
#[verifier::external_body]
#[verifier::reject_recursive_types(K)]
#[verifier::reject_recursive_types(V)]
#[verifier::reject_recursive_types(S)]
pub struct ExDashMap<K, V, S>(dashmap::DashMap<K, V, S>);

/// The channels that a map holds, by identifier.
pub uninterp spec fn registered(channels: Channels) -> Map<u128, Channel>;

/// `DashMap::new` makes a map without entries.
#[verifier::external_body]
pub(crate) fn vacant() -> (channels: Channels)
    ensures
        registered(channels) =~= Map::empty(),
{
    DashMap::new()
}

/// `DashMap::contains_key` says whether the map holds an entry under the
/// key.
#[verifier::external_body]
pub(crate) fn holds(channels: &Channels, id: &u128) -> (found: bool)
    ensures
        found == registered(*channels).contains_key(*id),
{
    channels.contains_key(id)
}

/// `DashMap::insert` puts the value under the key and returns what was
/// there before, if anything was. It does not unwind: hashing an integer
/// cannot fail, and a map that cannot grow aborts the process.
#[verifier::external_body]
pub(crate) fn put(channels: &mut Channels, id: u128, channel: Channel) -> (replaced: Option<
    Channel,
>)
    ensures
        registered(*final(channels)) == registered(*old(channels)).insert(id, channel),
        replaced == if registered(*old(channels)).contains_key(id) {
            Some(registered(*old(channels))[id])
        } else {
            None
        },
    no_unwind
{
    channels.insert(id, channel)
}

/// `DashMap::remove` takes the entry under the key out of the map and
/// returns it, if there is one; the wrapper keeps the value and drops the
/// key. It does not unwind: it hashes an integer and frees one entry.
#[verifier::external_body]
pub(crate) fn take(channels: &mut Channels, id: &u128) -> (taken: Option<Channel>)
    ensures
        registered(*final(channels)) == registered(*old(channels)).remove(*id),
        taken == if registered(*old(channels)).contains_key(*id) {
            Some(registered(*old(channels))[*id])
        } else {
            None
        },
    no_unwind
{
    channels.remove(id).map(|entry| entry.1)
}

} // verus!
