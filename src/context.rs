use vstd::prelude::*;

use crate::cache::{listed_member_key, member_key, CacheKind, EntityCache};
use crate::error::{PuppetError, WechatyError};
use crate::events::{kind_of, EventRoomLeavePayload, PuppetEvent};
use crate::listener::{after_fire, will_fire, ListenerRegistry};
use crate::lru_store::{has_key, value_of, without_key};
use crate::query::views;
use crate::schemas::FriendshipSearchQueryFilter;

verus! {

/// The shared handle every handler receives: the entity cache and the identity
/// of the logged-in account, if any.
pub struct WechatyContext {
    pub self_id: Option<String>,
    pub cache: EntityCache,
}

impl WechatyContext {
    /// The logged-in contact id, if any.
    pub open spec fn identity(&self) -> Option<Seq<char>> {
        match self.self_id {
            Some(id) => Some(id@),
            None => None,
        }
    }

    /// Well formed: the cache is.
    pub open spec fn wf(&self) -> bool {
        self.cache.wf()
    }

    /// A logged-out context over empty stores.
    pub fn new() -> (r: WechatyContext)
        ensures
            r.wf(),
            r.identity() is None,
            forall|k: CacheKind| #[trigger] r.cache.store(k)@.len() == 0,
    {
        WechatyContext { self_id: None, cache: EntityCache::new() }
    }

    /// The logged-in contact id, if any.
    pub fn id(&self) -> (r: Option<String>)
        ensures
            r matches Some(s) ==> self.identity() == Some(s@),
            r is None ==> self.identity() is None,
    {
        match &self.self_id {
            Some(id) => Some(id.clone()),
            None => None,
        }
    }

    /// Records that the session is logged in as `id`.
    pub fn set_id(&mut self, id: String)
        ensures
            final(self).identity() == Some(id@),
            final(self).cache == old(self).cache,
    {
        self.self_id = Some(id);
    }

    /// Records that the session is logged out.
    pub fn clear_id(&mut self)
        ensures
            final(self).identity() is None,
            final(self).cache == old(self).cache,
    {
        self.self_id = None;
    }

    /// Whether the session is logged in.
    pub fn is_logged_in(&self) -> (r: bool)
        ensures
            r == self.identity() is Some,
    {
        self.self_id.is_some()
    }

    /// Fails unless an account is logged in; every identity-bound operation starts here.
    pub fn require_login(&self) -> (r: Result<(), WechatyError>)
        ensures
            self.identity() is Some ==> r is Ok,
            self.identity() is None ==> r matches Err(WechatyError::NotLoggedIn),
    {
        if self.is_logged_in() {
            Ok(())
        } else {
            Err(WechatyError::NotLoggedIn)
        }
    }

    /// Checks a request to create a room with `contact_count` contacts: it needs
    /// a logged-in account and at least two contacts.
    pub fn check_room_create(&self, contact_count: usize) -> (r: Result<(), WechatyError>)
        ensures
            self.identity() is None ==> r matches Err(WechatyError::NotLoggedIn),
            self.identity() is Some && contact_count < 2 ==> (r matches Err(WechatyError::InvalidOperation(m))
                && m@ == "Need at least 2 contacts to create a room"@),
            self.identity() is Some && contact_count >= 2 ==> r is Ok,
    {
        if !self.is_logged_in() {
            Err(WechatyError::NotLoggedIn)
        } else if contact_count < 2 {
            Err(WechatyError::InvalidOperation(String::from_str("Need at least 2 contacts to create a room")))
        } else {
            Ok(())
        }
    }

    /// Checks a friendship search: it needs a logged-in account and a phone
    /// number or a weixin id to look for.
    pub fn check_friendship_search(&self, query: &FriendshipSearchQueryFilter) -> (r: Result<(), WechatyError>)
        ensures
            self.identity() is None ==> r matches Err(WechatyError::NotLoggedIn),
            self.identity() is Some && query.phone is None && query.weixin is None ==> (r matches Err(
                WechatyError::InvalidOperation(m),
            ) && m@ == "Must specify either phone or weixin"@),
            self.identity() is Some && (query.phone is Some || query.weixin is Some) ==> r is Ok,
    {
        if !self.is_logged_in() {
            Err(WechatyError::NotLoggedIn)
        } else if query.phone.is_none() && query.weixin.is_none() {
            Err(WechatyError::InvalidOperation(String::from_str("Must specify either phone or weixin")))
        } else {
            Ok(())
        }
    }

    /// Updates the identity for a login or logout event; other events leave it.
    pub fn apply_identity(&mut self, event: &PuppetEvent)
        ensures
            final(self).cache == old(self).cache,
            event matches PuppetEvent::Login(p) ==> final(self).identity() == Some(p.contact_id@),
            event is Logout ==> final(self).identity() is None,
            !(event is Login || event is Logout) ==> final(self).identity() == old(self).identity(),
    {
        match event {
            PuppetEvent::Login(p) => self.set_id(p.contact_id.clone()),
            PuppetEvent::Logout(_) => self.clear_id(),
            _ => {},
        }
    }

    /// Whether a room-leave event removed the logged-in account itself.
    pub fn removes_self(&self, payload: &EventRoomLeavePayload) -> (r: bool)
        ensures
            r == (self.identity() matches Some(me) && views(payload.removee_id_list@).contains(me)),
    {
        match &self.self_id {
            Some(me) => crate::query::list_contains(&payload.removee_id_list, me),
            None => false,
        }
    }

    /// Cleans up after the account left a room: the room's payload is
    /// invalidated, and so is each member's payload, given the room's member list
    /// as freshly fetched. If that fetch failed, the member payloads stay and its
    /// error is returned.
    pub fn clean_up_left_room(&mut self, room_id: &String, fetched_members: Result<Vec<String>, PuppetError>) -> (r:
        Result<(), PuppetError>)
        requires
            old(self).wf(),
        ensures
            final(self).wf(),
            final(self).identity() == old(self).identity(),
            !has_key(final(self).cache.rooms@, room_id@),
            final(self).cache.rooms@ == without_key(old(self).cache.rooms@, room_id@),
            fetched_members matches Err(e) ==> r == Err::<(), PuppetError>(e) && final(self).cache.room_members
                == old(self).cache.room_members,
            fetched_members matches Ok(members) ==> r is Ok && (forall|k: Seq<char>| #[trigger]
                has_key(final(self).cache.room_members@, k) <==> (has_key(old(self).cache.room_members@, k)
                    && !listed_member_key(room_id@, members@, members@.len() as int, k))),
            fetched_members matches Ok(members) ==> forall|j: int| 0 <= j < members@.len() ==> !has_key(
                final(self).cache.room_members@,
                #[trigger] member_key(room_id@, members@[j]@),
            ),
    {
        proof {
            crate::lru_model::lemma_without_key(self.cache.rooms@, room_id@);
        }
        self.cache.invalidate(CacheKind::Room, room_id);
        let ghost fetched = fetched_members;
        let r = self.cache.dirty_room_members(room_id, fetched_members);
        proof {
            if fetched is Ok {
                let members = fetched->Ok_0;
                assert forall|j: int| 0 <= j < members@.len() implies !has_key(
                    self.cache.room_members@,
                    #[trigger] member_key(room_id@, members@[j]@),
                ) by {
                    assert(listed_member_key(room_id@, members@, members@.len() as int, member_key(room_id@, members@[j]@)));
                }
            }
        }
        r
    }
}

/// The per-component state that event dispatch runs on: the shared context and
/// the component's handlers.
pub struct EventListenerInner {
    pub ctx: WechatyContext,
    pub handlers: ListenerRegistry,
}

impl EventListenerInner {
    /// Starts dispatching `event`: a login or logout first updates the identity,
    /// so that the handlers see it; then the handlers of the event's kind that
    /// have calls left are picked, in registration order, and each uses up a
    /// call. The returned positions are the handlers to run.
    pub fn begin_dispatch(&mut self, event: &PuppetEvent) -> (r: Vec<usize>)
        ensures
            final(self).ctx.cache == old(self).ctx.cache,
            event matches PuppetEvent::Login(p) ==> final(self).ctx.identity() == Some(p.contact_id@),
            event is Logout ==> final(self).ctx.identity() is None,
            !(event is Login || event is Logout) ==> final(self).ctx.identity() == old(self).ctx.identity(),
            kind_of(*event) is None ==> r@.len() == 0 && final(self).handlers@ == old(self).handlers@,
            kind_of(*event) matches Some(k) ==> {
                &&& final(self).handlers@.len() == old(self).handlers@.len()
                &&& forall|i: int| 0 <= i < old(self).handlers@.len() ==> #[trigger] final(self).handlers@[i]
                    == after_fire(old(self).handlers@[i], k)
                &&& forall|j: int| 0 <= j < r@.len() ==> #[trigger] r@[j] < old(self).handlers@.len() && will_fire(
                    old(self).handlers@[r@[j] as int],
                    k,
                )
                &&& forall|a: int, b: int| 0 <= a < b < r@.len() ==> #[trigger] r@[a] < #[trigger] r@[b]
                &&& forall|i: int| 0 <= i < old(self).handlers@.len() && #[trigger] will_fire(old(self).handlers@[i], k)
                    ==> r@.contains(i as usize)
            },
    {
        self.ctx.apply_identity(event);
        match event.kind() {
            Some(k) => self.handlers.fire(k),
            None => Vec::new(),
        }
    }
}

} // verus!
