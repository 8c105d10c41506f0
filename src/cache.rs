use lru::LruCache;
use std::collections::hash_map::RandomState;
use vstd::prelude::*;

use crate::error::PuppetError;
use crate::lru_model::{lemma_after_get, lemma_after_put, lemma_without_key};
use crate::lru_store::{
    after_get, after_put, has_key, keys_unique, lru_capacity, lru_entries, lru_get, lru_keys,
    lru_new, lru_pop, lru_put, value_of, without_key, EntityPayload,
};
use crate::schemas::PayloadType;

verus! {

/// Capacity of the contact store.
pub const CONTACT_CACHE_CAP: usize = 3000;
/// Capacity of the friendship store.
pub const FRIENDSHIP_CACHE_CAP: usize = 300;
/// Capacity of the message store.
pub const MESSAGE_CACHE_CAP: usize = 500;
/// Capacity of the room store.
pub const ROOM_CACHE_CAP: usize = 500;
/// Capacity of the room-member store.
pub const ROOM_MEMBER_CACHE_CAP: usize = 30000;
/// Capacity of the room-invitation store.
pub const ROOM_INVITATION_CACHE_CAP: usize = 100;

/// One bounded store of payloads keyed by id, evicting the least recently used.
pub struct PayloadStore {
    cache: LruCache<String, EntityPayload, RandomState>,
}

impl View for PayloadStore {
    type V = Seq<(Seq<char>, EntityPayload)>;

    closed spec fn view(&self) -> Seq<(Seq<char>, EntityPayload)> {
        lru_entries(self.cache)
    }
}

impl PayloadStore {
    /// The most entries the store holds.
    pub closed spec fn capacity(&self) -> nat {
        lru_capacity(self.cache)
    }

    /// Keys are unique and the store stays within its capacity.
    pub open spec fn wf(&self) -> bool {
        &&& keys_unique(self@)
        &&& self@.len() <= self.capacity()
        &&& self.capacity() > 0
    }

    /// An empty store holding at most `cap` payloads.
    pub fn new(cap: usize) -> (r: PayloadStore)
        requires
            cap > 0,
        ensures
            r.wf(),
            r@ == Seq::<(Seq<char>, EntityPayload)>::empty(),
            r.capacity() == cap,
    {
        PayloadStore { cache: lru_new(cap) }
    }

    /// Looks `id` up. A hit returns the cached payload and marks it as most
    /// recently used; a miss (`None`) tells the caller to fetch from the backend.
    pub fn lookup(&mut self, id: &String) -> (r: Option<EntityPayload>)
        requires
            old(self).wf(),
        ensures
            final(self).wf(),
            final(self).capacity() == old(self).capacity(),
            r == value_of(old(self)@, id@),
            final(self)@ == after_get(old(self)@, id@),
    {
        proof {
            lemma_after_get(self@, id@);
        }
        lru_get(&mut self.cache, id)
    }

    /// Stores `payload` under `id` unconditionally, as the most recently used entry.
    pub fn put(&mut self, id: String, payload: EntityPayload)
        requires
            old(self).wf(),
        ensures
            final(self).wf(),
            final(self).capacity() == old(self).capacity(),
            final(self)@ == after_put(old(self)@, old(self).capacity(), id@, payload),
    {
        proof {
            lemma_after_put(self@, self.capacity(), id@, payload);
        }
        lru_put(&mut self.cache, id, payload);
    }

    /// Completes a read that missed: a fetched payload is stored and returned,
    /// a backend error is returned unchanged and nothing is cached.
    pub fn finish_fetch(&mut self, id: String, fetched: Result<EntityPayload, PuppetError>) -> (r: Result<
        EntityPayload,
        PuppetError,
    >)
        requires
            old(self).wf(),
        ensures
            final(self).wf(),
            final(self).capacity() == old(self).capacity(),
            r == fetched,
            fetched matches Ok(p) ==> final(self)@ == after_put(old(self)@, old(self).capacity(), id@, p),
            fetched is Err ==> final(self)@ == old(self)@,
    {
        match fetched {
            Ok(payload) => {
                // The payload moves into the store and is read back from it, so
                // the caller receives exactly the cached value.
                let key = id.clone();
                let ghost before = self@;
                let ghost fetched_payload = payload;
                proof {
                    lemma_after_put(before, self.capacity(), key@, fetched_payload);
                }
                self.put(id, payload);
                let ghost stored = self@;
                proof {
                    lemma_after_get(stored, key@);
                    assert(value_of(stored, key@) == Some(fetched_payload));
                    assert(stored[0].0 == key@);
                    assert(has_key(stored, key@));
                }
                let hit = self.lookup(&key);
                proof {
                    assert(after_get(stored, key@) =~= stored) by {
                        lemma_without_key(stored, key@);
                        let idx = crate::lru_store::key_index(stored, key@);
                        assert(idx == 0);
                        assert(without_key(stored, key@) =~= stored.subrange(1, stored.len() as int));
                    }
                }
                match hit {
                    Some(p) => Ok(p),
                    None => {
                        // The entry was stored just above, so the lookup hits.
                        proof {
                            assert(false);
                        }
                        Err(PuppetError::UnknownPayloadType)
                    },
                }
            },
            Err(e) => Err(e),
        }
    }

    /// Removes the entry for `id`, if any.
    pub fn invalidate(&mut self, id: &String)
        requires
            old(self).wf(),
        ensures
            final(self).wf(),
            final(self).capacity() == old(self).capacity(),
            final(self)@ == without_key(old(self)@, id@),
    {
        proof {
            lemma_without_key(self@, id@);
        }
        lru_pop(&mut self.cache, id);
    }

    /// The ids held now, most recently used first.
    pub fn cached_ids(&self) -> (r: Vec<String>)
        ensures
            r@.len() == self@.len(),
            forall|i: int| 0 <= i < r@.len() ==> #[trigger] r@[i]@ == self@[i].0,
    {
        lru_keys(&self.cache)
    }
}

/// The kind of entity a store holds.
#[derive(Clone, Copy, Debug, PartialEq, Eq, Structural)]
pub enum CacheKind {
    Contact,
    Friendship,
    Message,
    Room,
    RoomMember,
    RoomInvitation,
}

/// The key under which a room member is cached: the member's id, `@@@`, the room's id.
pub open spec fn member_key(room_id: Seq<char>, contact_id: Seq<char>) -> Seq<char> {
    contact_id + "@@@"@ + room_id
}

/// Builds the cache key of a member of a room.
pub fn room_member_cache_key(room_id: &String, contact_id: &String) -> (r: String)
    ensures
        r@ == member_key(room_id@, contact_id@),
{
    let mut key = contact_id.clone();
    key.append("@@@");
    key.append(room_id.as_str());
    key
}

/// Whether `k` is the member key of one of the first `n` listed members of the room.
pub open spec fn listed_member_key(room_id: Seq<char>, members: Seq<String>, n: int, k: Seq<char>) -> bool {
    exists|j: int| 0 <= j < n && #[trigger] member_key(room_id, members[j]@) == k
}

/// What a dirty signal asks of the caller.
pub enum DirtyStep {
    /// The signal has been handled, with this outcome.
    Done(Result<(), PuppetError>),
    /// The room's member list must be fetched fresh and handed to
    /// `EntityCache::dirty_room_members`.
    NeedRoomMembers,
}

/// The six bounded stores, one per entity kind.
pub struct EntityCache {
    pub contacts: PayloadStore,
    pub friendships: PayloadStore,
    pub messages: PayloadStore,
    pub rooms: PayloadStore,
    pub room_members: PayloadStore,
    pub room_invitations: PayloadStore,
}

impl EntityCache {
    /// The store that holds entities of `kind`.
    pub open spec fn store(&self, kind: CacheKind) -> PayloadStore {
        match kind {
            CacheKind::Contact => self.contacts,
            CacheKind::Friendship => self.friendships,
            CacheKind::Message => self.messages,
            CacheKind::Room => self.rooms,
            CacheKind::RoomMember => self.room_members,
            CacheKind::RoomInvitation => self.room_invitations,
        }
    }

    /// Every store is well formed.
    pub open spec fn wf(&self) -> bool {
        &&& self.contacts.wf()
        &&& self.friendships.wf()
        &&& self.messages.wf()
        &&& self.rooms.wf()
        &&& self.room_members.wf()
        &&& self.room_invitations.wf()
    }

    /// The stores other than `kind` are those of `other`.
    pub open spec fn same_except(&self, other: &EntityCache, kind: CacheKind) -> bool {
        &&& kind != CacheKind::Contact ==> self.contacts == other.contacts
        &&& kind != CacheKind::Friendship ==> self.friendships == other.friendships
        &&& kind != CacheKind::Message ==> self.messages == other.messages
        &&& kind != CacheKind::Room ==> self.rooms == other.rooms
        &&& kind != CacheKind::RoomMember ==> self.room_members == other.room_members
        &&& kind != CacheKind::RoomInvitation ==> self.room_invitations == other.room_invitations
    }

    /// The capacity of the store for `kind`.
    pub open spec fn capacity_of(kind: CacheKind) -> nat {
        match kind {
            CacheKind::Contact => CONTACT_CACHE_CAP as nat,
            CacheKind::Friendship => FRIENDSHIP_CACHE_CAP as nat,
            CacheKind::Message => MESSAGE_CACHE_CAP as nat,
            CacheKind::Room => ROOM_CACHE_CAP as nat,
            CacheKind::RoomMember => ROOM_MEMBER_CACHE_CAP as nat,
            CacheKind::RoomInvitation => ROOM_INVITATION_CACHE_CAP as nat,
        }
    }

    /// Six empty stores with their fixed capacities.
    pub fn new() -> (r: EntityCache)
        ensures
            r.wf(),
            forall|k: CacheKind| #[trigger] r.store(k)@ == Seq::<(Seq<char>, EntityPayload)>::empty(),
            forall|k: CacheKind| #[trigger] r.store(k).capacity() == EntityCache::capacity_of(k),
    {
        EntityCache {
            contacts: PayloadStore::new(CONTACT_CACHE_CAP),
            friendships: PayloadStore::new(FRIENDSHIP_CACHE_CAP),
            messages: PayloadStore::new(MESSAGE_CACHE_CAP),
            rooms: PayloadStore::new(ROOM_CACHE_CAP),
            room_members: PayloadStore::new(ROOM_MEMBER_CACHE_CAP),
            room_invitations: PayloadStore::new(ROOM_INVITATION_CACHE_CAP),
        }
    }

    /// Looks `id` up in the store for `kind` (see `PayloadStore::lookup`).
    pub fn lookup(&mut self, kind: CacheKind, id: &String) -> (r: Option<EntityPayload>)
        requires
            old(self).wf(),
        ensures
            final(self).wf(),
            final(self).same_except(old(self), kind),
            final(self).store(kind).capacity() == old(self).store(kind).capacity(),
            r == value_of(old(self).store(kind)@, id@),
            final(self).store(kind)@ == after_get(old(self).store(kind)@, id@),
    {
        proof {
            assert(self.store(kind).wf());
        }
        match kind {
            CacheKind::Contact => self.contacts.lookup(id),
            CacheKind::Friendship => self.friendships.lookup(id),
            CacheKind::Message => self.messages.lookup(id),
            CacheKind::Room => self.rooms.lookup(id),
            CacheKind::RoomMember => self.room_members.lookup(id),
            CacheKind::RoomInvitation => self.room_invitations.lookup(id),
        }
    }

    /// Completes a read of `id` that missed (see `PayloadStore::finish_fetch`).
    pub fn finish_fetch(&mut self, kind: CacheKind, id: String, fetched: Result<EntityPayload, PuppetError>) -> (r:
        Result<EntityPayload, PuppetError>)
        requires
            old(self).wf(),
        ensures
            final(self).wf(),
            final(self).same_except(old(self), kind),
            final(self).store(kind).capacity() == old(self).store(kind).capacity(),
            r == fetched,
            fetched matches Ok(p) ==> final(self).store(kind)@ == after_put(
                old(self).store(kind)@,
                old(self).store(kind).capacity(),
                id@,
                p,
            ),
            fetched is Err ==> final(self).store(kind)@ == old(self).store(kind)@,
    {
        proof {
            assert(self.store(kind).wf());
        }
        match kind {
            CacheKind::Contact => self.contacts.finish_fetch(id, fetched),
            CacheKind::Friendship => self.friendships.finish_fetch(id, fetched),
            CacheKind::Message => self.messages.finish_fetch(id, fetched),
            CacheKind::Room => self.rooms.finish_fetch(id, fetched),
            CacheKind::RoomMember => self.room_members.finish_fetch(id, fetched),
            CacheKind::RoomInvitation => self.room_invitations.finish_fetch(id, fetched),
        }
    }

    /// Stores `payload` under `id` in the store for `kind`, unconditionally.
    pub fn put(&mut self, kind: CacheKind, id: String, payload: EntityPayload)
        requires
            old(self).wf(),
        ensures
            final(self).wf(),
            final(self).same_except(old(self), kind),
            final(self).store(kind).capacity() == old(self).store(kind).capacity(),
            final(self).store(kind)@ == after_put(
                old(self).store(kind)@,
                old(self).store(kind).capacity(),
                id@,
                payload,
            ),
    {
        proof {
            assert(self.store(kind).wf());
        }
        match kind {
            CacheKind::Contact => self.contacts.put(id, payload),
            CacheKind::Friendship => self.friendships.put(id, payload),
            CacheKind::Message => self.messages.put(id, payload),
            CacheKind::Room => self.rooms.put(id, payload),
            CacheKind::RoomMember => self.room_members.put(id, payload),
            CacheKind::RoomInvitation => self.room_invitations.put(id, payload),
        }
    }

    /// Removes `id` from the store for `kind`; absent ids are no error.
    pub fn invalidate(&mut self, kind: CacheKind, id: &String)
        requires
            old(self).wf(),
        ensures
            final(self).wf(),
            final(self).same_except(old(self), kind),
            final(self).store(kind).capacity() == old(self).store(kind).capacity(),
            final(self).store(kind)@ == without_key(old(self).store(kind)@, id@),
    {
        proof {
            assert(self.store(kind).wf());
        }
        match kind {
            CacheKind::Contact => self.contacts.invalidate(id),
            CacheKind::Friendship => self.friendships.invalidate(id),
            CacheKind::Message => self.messages.invalidate(id),
            CacheKind::Room => self.rooms.invalidate(id),
            CacheKind::RoomMember => self.room_members.invalidate(id),
            CacheKind::RoomInvitation => self.room_invitations.invalidate(id),
        }
    }

    /// The ids cached now for `kind`, most recently used first.
    pub fn cached_ids(&self, kind: CacheKind) -> (r: Vec<String>)
        ensures
            r@.len() == self.store(kind)@.len(),
            forall|i: int| 0 <= i < r@.len() ==> #[trigger] r@[i]@ == self.store(kind)@[i].0,
    {
        match kind {
            CacheKind::Contact => self.contacts.cached_ids(),
            CacheKind::Friendship => self.friendships.cached_ids(),
            CacheKind::Message => self.messages.cached_ids(),
            CacheKind::Room => self.rooms.cached_ids(),
            CacheKind::RoomMember => self.room_members.cached_ids(),
            CacheKind::RoomInvitation => self.room_invitations.cached_ids(),
        }
    }

    /// Handles a dirty signal for `id`. Messages, contacts, rooms and friendships
    /// are invalidated at once; a room-member signal names a room whose member
    /// list must be fetched first; an unknown payload type is an error.
    pub fn dirty_payload(&mut self, payload_type: PayloadType, id: &String) -> (r: DirtyStep)
        requires
            old(self).wf(),
        ensures
            final(self).wf(),
            payload_type == PayloadType::Unknown ==> r == DirtyStep::Done(
                Err(PuppetError::UnknownPayloadType),
            ) && *final(self) == *old(self),
            payload_type == PayloadType::RoomMember ==> r == DirtyStep::NeedRoomMembers && *final(self)
                == *old(self),
            payload_type == PayloadType::Message ==> r == DirtyStep::Done(Ok(()))
                && final(self).same_except(old(self), CacheKind::Message)
                && final(self).messages@ == without_key(old(self).messages@, id@),
            payload_type == PayloadType::Contact ==> r == DirtyStep::Done(Ok(()))
                && final(self).same_except(old(self), CacheKind::Contact)
                && final(self).contacts@ == without_key(old(self).contacts@, id@),
            payload_type == PayloadType::Room ==> r == DirtyStep::Done(Ok(()))
                && final(self).same_except(old(self), CacheKind::Room)
                && final(self).rooms@ == without_key(old(self).rooms@, id@),
            payload_type == PayloadType::Friendship ==> r == DirtyStep::Done(Ok(()))
                && final(self).same_except(old(self), CacheKind::Friendship)
                && final(self).friendships@ == without_key(old(self).friendships@, id@),
    {
        match payload_type {
            PayloadType::Message => {
                self.invalidate(CacheKind::Message, id);
                DirtyStep::Done(Ok(()))
            },
            PayloadType::Contact => {
                self.invalidate(CacheKind::Contact, id);
                DirtyStep::Done(Ok(()))
            },
            PayloadType::Room => {
                self.invalidate(CacheKind::Room, id);
                DirtyStep::Done(Ok(()))
            },
            PayloadType::Friendship => {
                self.invalidate(CacheKind::Friendship, id);
                DirtyStep::Done(Ok(()))
            },
            PayloadType::RoomMember => DirtyStep::NeedRoomMembers,
            PayloadType::Unknown => DirtyStep::Done(Err(PuppetError::UnknownPayloadType)),
        }
    }

    /// Invalidates every cached member of `room_id`, given the room's member list
    /// as freshly fetched from the backend. If that fetch failed, nothing is
    /// invalidated and its error is returned.
    pub fn dirty_room_members(&mut self, room_id: &String, fetched: Result<Vec<String>, PuppetError>) -> (r:
        Result<(), PuppetError>)
        requires
            old(self).wf(),
        ensures
            final(self).wf(),
            fetched matches Err(e) ==> r == Err::<(), PuppetError>(e) && *final(self) == *old(self),
            fetched matches Ok(members) ==> {
                &&& r is Ok
                &&& final(self).same_except(old(self), CacheKind::RoomMember)
                &&& forall|k: Seq<char>| #[trigger]
                    has_key(final(self).room_members@, k) <==> (has_key(old(self).room_members@, k)
                        && !listed_member_key(room_id@, members@, members@.len() as int, k))
                &&& forall|k: Seq<char>| #[trigger]
                    has_key(final(self).room_members@, k) ==> value_of(final(self).room_members@, k)
                        == value_of(old(self).room_members@, k)
            },
    {
        match fetched {
            Err(e) => Err(e),
            Ok(members) => {
                let ghost start = self.room_members@;
                let ghost old_self = *self;
                let mut i: usize = 0;
                while i < members.len()
                    invariant
                        self.wf(),
                        0 <= i <= members@.len(),
                        self.same_except(&old_self, CacheKind::RoomMember),
                        forall|k: Seq<char>| #[trigger]
                            has_key(self.room_members@, k) <==> (has_key(start, k)
                                && !listed_member_key(room_id@, members@, i as int, k)),
                        forall|k: Seq<char>| #[trigger]
                            has_key(self.room_members@, k) ==> value_of(self.room_members@, k)
                                == value_of(start, k),
                    decreases members@.len() - i,
                {
                    let key = room_member_cache_key(room_id, &members[i]);
                    let ghost before = self.room_members@;
                    proof {
                        lemma_without_key(before, key@);
                    }
                    self.room_members.invalidate(&key);
                    proof {
                        assert forall|k: Seq<char>| #[trigger]
                            has_key(self.room_members@, k) <==> (has_key(start, k)
                                && !listed_member_key(room_id@, members@, i + 1, k)) by {
                            if listed_member_key(room_id@, members@, i + 1, k) && !listed_member_key(
                                room_id@,
                                members@,
                                i as int,
                                k,
                            ) {
                                let j = choose|j: int| 0 <= j < i + 1 && #[trigger] member_key(room_id@, members@[j]@) == k;
                                assert(j == i);
                            }
                            if k == key@ {
                                assert(member_key(room_id@, members@[i as int]@) == k);
                            }
                            if listed_member_key(room_id@, members@, i as int, k) {
                                let j = choose|j: int| 0 <= j < i && #[trigger] member_key(room_id@, members@[j]@) == k;
                                assert(0 <= j < i + 1 && member_key(room_id@, members@[j]@) == k);
                            }
                        }
                    }
                    i = i + 1;
                }
                Ok(())
            },
        }
    }
}

} // verus!
