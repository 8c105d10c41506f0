use lru::LruCache;
use std::collections::hash_map::RandomState;
use vstd::prelude::*;

use crate::schemas::{
    ContactPayload, FriendshipPayload, MessagePayload, RoomInvitationPayload, RoomMemberPayload,
    RoomPayload,
};

verus! {

#[verifier::external_type_specification]
#[verifier::external_body]
#[verifier::reject_recursive_types(K)]
#[verifier::reject_recursive_types(V)]
#[verifier::reject_recursive_types(S)]
pub struct ExLruCache<K, V, S>(LruCache<K, V, S>);

/// A payload of any of the cached entity kinds.
#[derive(Clone, Debug)]
pub enum EntityPayload {
    Contact(ContactPayload),
    Friendship(FriendshipPayload),
    Message(MessagePayload),
    Room(RoomPayload),
    RoomMember(RoomMemberPayload),
    RoomInvitation(RoomInvitationPayload),
}

/// The entries of an LRU cache as (key, value) pairs, most recently used first.
pub uninterp spec fn lru_entries(c: LruCache<String, EntityPayload, RandomState>) -> Seq<(Seq<char>, EntityPayload)>;

/// The capacity that an LRU cache was made with.
pub uninterp spec fn lru_capacity(c: LruCache<String, EntityPayload, RandomState>) -> nat;

/// Whether some entry has key `k`.
pub open spec fn has_key(e: Seq<(Seq<char>, EntityPayload)>, k: Seq<char>) -> bool {
    exists|i: int| 0 <= i < e.len() && #[trigger] e[i].0 == k
}

/// The position of the entry with key `k` (meaningful when there is one).
pub open spec fn key_index(e: Seq<(Seq<char>, EntityPayload)>, k: Seq<char>) -> int {
    choose|i: int| 0 <= i < e.len() && #[trigger] e[i].0 == k
}

/// No two entries share a key.
pub open spec fn keys_unique(e: Seq<(Seq<char>, EntityPayload)>) -> bool {
    forall|i: int, j: int| 0 <= i < j < e.len() ==> #[trigger] e[i].0 != #[trigger] e[j].0
}

/// The value stored under `k`, if any.
pub open spec fn value_of(e: Seq<(Seq<char>, EntityPayload)>, k: Seq<char>) -> Option<EntityPayload> {
    if has_key(e, k) {
        Some(e[key_index(e, k)].1)
    } else {
        None
    }
}

/// The entries without the one stored under `k`.
pub open spec fn without_key(e: Seq<(Seq<char>, EntityPayload)>, k: Seq<char>) -> Seq<(Seq<char>, EntityPayload)> {
    if has_key(e, k) {
        e.remove(key_index(e, k))
    } else {
        e
    }
}

/// The entries after a lookup of `k`: a hit moves the entry to the front.
pub open spec fn after_get(e: Seq<(Seq<char>, EntityPayload)>, k: Seq<char>) -> Seq<(Seq<char>, EntityPayload)> {
    if has_key(e, k) {
        seq![(k, e[key_index(e, k)].1)] + without_key(e, k)
    } else {
        e
    }
}

/// The entries after storing `v` under `k` in a cache of capacity `cap`: the new
/// entry goes to the front, replacing an entry with the same key, or else
/// evicting the least recently used entry when the cache is full.
pub open spec fn after_put(
    e: Seq<(Seq<char>, EntityPayload)>,
    cap: nat,
    k: Seq<char>,
    v: EntityPayload,
) -> Seq<(Seq<char>, EntityPayload)> {
    if has_key(e, k) {
        seq![(k, v)] + without_key(e, k)
    } else if e.len() >= cap {
        seq![(k, v)] + e.drop_last()
    } else {
        seq![(k, v)] + e
    }
}

/// Relies on lru::LruCache::with_hasher: an empty cache holding at most `cap` entries.
#[verifier::external_body]
pub(crate) fn lru_new(cap: usize) -> (r: LruCache<String, EntityPayload, RandomState>)
    requires
        cap > 0,
    ensures
        lru_entries(r) == Seq::<(Seq<char>, EntityPayload)>::empty(),
        lru_capacity(r) == cap,
{
    LruCache::with_hasher(std::num::NonZeroUsize::new(cap).unwrap(), RandomState::new())
}

/// Relies on lru::LruCache::get: returns the stored value and makes its entry
/// the most recently used one.
#[verifier::external_body]
pub(crate) fn lru_get(c: &mut LruCache<String, EntityPayload, RandomState>, k: &String) -> (r: Option<EntityPayload>)
    ensures
        r == value_of(lru_entries(*old(c)), k@),
        lru_entries(*final(c)) == after_get(lru_entries(*old(c)), k@),
        lru_capacity(*final(c)) == lru_capacity(*old(c)),
{
    c.get(k).cloned()
}

/// Relies on lru::LruCache::put: stores the entry as the most recently used one,
/// replacing the entry with the same key or evicting the least recently used one.
#[verifier::external_body]
pub(crate) fn lru_put(c: &mut LruCache<String, EntityPayload, RandomState>, k: String, v: EntityPayload)
    ensures
        lru_entries(*final(c)) == after_put(lru_entries(*old(c)), lru_capacity(*old(c)), k@, v),
        lru_capacity(*final(c)) == lru_capacity(*old(c)),
{
    c.put(k, v);
}

/// Relies on lru::LruCache::pop: removes the entry with the key, if any.
#[verifier::external_body]
pub(crate) fn lru_pop(c: &mut LruCache<String, EntityPayload, RandomState>, k: &String)
    ensures
        lru_entries(*final(c)) == without_key(lru_entries(*old(c)), k@),
        lru_capacity(*final(c)) == lru_capacity(*old(c)),
{
    c.pop(k);
}

/// Relies on lru::LruCache::iter: the keys, most recently used first.
#[verifier::external_body]
pub(crate) fn lru_keys(c: &LruCache<String, EntityPayload, RandomState>) -> (r: Vec<String>)
    ensures
        r@.len() == lru_entries(*c).len(),
        forall|i: int| 0 <= i < r@.len() ==> #[trigger] r@[i]@ == lru_entries(*c)[i].0,
{
    c.iter().map(|(k, _v)| k.clone()).collect()
}

} // verus!
