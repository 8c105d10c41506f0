use vstd::prelude::*;

use crate::context::WechatyContext;
use crate::error::WechatyError;
use crate::schemas::{ContactPayload, FriendshipPayload, FriendshipType, RoomPayload};

verus! {

/// The name shown for an entity whose payload has not loaded.
pub open spec fn loading_text() -> Seq<char> {
    "loading..."@
}

/// The name shown for a contact: its alias, else its name, else its id.
pub open spec fn contact_identity(id: Seq<char>, payload: Option<ContactPayload>) -> Seq<char> {
    match payload {
        Some(p) => if p.alias@.len() > 0 {
            p.alias@
        } else if p.name@.len() > 0 {
            p.name@
        } else if id.len() > 0 {
            id
        } else {
            loading_text()
        },
        None => loading_text(),
    }
}

/// The name shown for a room: its topic, else its id.
pub open spec fn room_identity(id: Seq<char>, payload: Option<RoomPayload>) -> Seq<char> {
    match payload {
        Some(p) => if p.topic@.len() > 0 {
            p.topic@
        } else if id.len() > 0 {
            id
        } else {
            loading_text()
        },
        None => loading_text(),
    }
}

/// A contact and its payload, when loaded.
#[derive(Clone, Debug)]
pub struct Contact {
    pub id: String,
    pub payload: Option<ContactPayload>,
}

impl Contact {
    /// Whether the payload has loaded.
    pub fn is_ready(&self) -> (r: bool)
        ensures
            r == self.payload is Some,
    {
        self.payload.is_some()
    }

    /// The name shown for this contact.
    pub fn identity(&self) -> (r: String)
        ensures
            r@ == contact_identity(self.id@, self.payload),
    {
        match &self.payload {
            Some(p) => {
                if !p.alias.as_str().is_empty() {
                    p.alias.clone()
                } else if !p.name.as_str().is_empty() {
                    p.name.clone()
                } else if !self.id.as_str().is_empty() {
                    self.id.clone()
                } else {
                    String::from_str("loading...")
                }
            },
            None => String::from_str("loading..."),
        }
    }

    /// The contact's name, once loaded.
    pub fn name(&self) -> (r: Option<String>)
        ensures
            r is Some <==> self.payload is Some,
            r matches Some(n) ==> n@ == self.payload->Some_0.name@,
    {
        match &self.payload {
            Some(p) => Some(p.name.clone()),
            None => None,
        }
    }

    /// The contact's alias, once loaded.
    pub fn alias(&self) -> (r: Option<String>)
        ensures
            r is Some <==> self.payload is Some,
            r matches Some(a) ==> a@ == self.payload->Some_0.alias@,
    {
        match &self.payload {
            Some(p) => Some(p.alias.clone()),
            None => None,
        }
    }

    /// Whether this contact is the logged-in account.
    pub fn is_self(&self, ctx: &WechatyContext) -> (r: bool)
        ensures
            r == (ctx.identity() == Some(self.id@)),
    {
        match &ctx.self_id {
            Some(me) => self.id.eq(me),
            None => false,
        }
    }

    /// Guards the operations on the account's own profile (name,
    /// signature, avatar, QR code): they need this contact to be the account.
    pub fn require_self(&self, ctx: &WechatyContext) -> (r: Result<(), WechatyError>)
        ensures
            ctx.identity() == Some(self.id@) ==> r is Ok,
            ctx.identity() != Some(self.id@) ==> r matches Err(WechatyError::NotLoggedIn),
    {
        if self.is_self(ctx) {
            Ok(())
        } else {
            Err(WechatyError::NotLoggedIn)
        }
    }
}

/// A room and its payload, when loaded.
#[derive(Clone, Debug)]
pub struct Room {
    pub id: String,
    pub payload: Option<RoomPayload>,
}

impl Room {
    /// The name shown for this room.
    pub fn identity(&self) -> (r: String)
        ensures
            r@ == room_identity(self.id@, self.payload),
    {
        match &self.payload {
            Some(p) => {
                if !p.topic.as_str().is_empty() {
                    p.topic.clone()
                } else if !self.id.as_str().is_empty() {
                    self.id.clone()
                } else {
                    String::from_str("loading...")
                }
            },
            None => String::from_str("loading..."),
        }
    }
}

/// A friendship request and its payload, when loaded.
#[derive(Clone, Debug)]
pub struct Friendship {
    pub id: String,
    pub payload: Option<FriendshipPayload>,
}

impl Friendship {
    /// The request's type, once loaded.
    pub fn friendship_type(&self) -> (r: Option<FriendshipType>)
        ensures
            r is Some <==> self.payload is Some,
            r matches Some(t) ==> t == self.payload->Some_0.friendship_type,
    {
        match &self.payload {
            Some(p) => Some(p.friendship_type),
            None => None,
        }
    }

    /// The id of the contact behind the request, when it names one.
    pub fn contact_id(&self) -> (r: Option<String>)
        ensures
            r is Some <==> (self.payload matches Some(p) && p.contact_id@.len() > 0),
            r matches Some(c) ==> c@ == self.payload->Some_0.contact_id@,
    {
        match &self.payload {
            Some(p) => if !p.contact_id.as_str().is_empty() {
                Some(p.contact_id.clone())
            } else {
                None
            },
            None => None,
        }
    }

    /// Whether the request may be accepted: it must be loaded and be a
    /// received request.
    pub fn check_accept(&self) -> (r: Result<(), WechatyError>)
        ensures
            self.payload is None ==> r matches Err(WechatyError::NoPayload),
            self.payload matches Some(p) ==> (p.friendship_type == FriendshipType::Receive ==> r is Ok),
            self.payload matches Some(p) ==> (p.friendship_type != FriendshipType::Receive ==> (r matches Err(
                WechatyError::InvalidOperation(m),
            ) && m@ == "Can only accept a friendship of the Receive type"@)),
    {
        match &self.payload {
            None => Err(WechatyError::NoPayload),
            Some(p) => if p.friendship_type == FriendshipType::Receive {
                Ok(())
            } else {
                Err(
                    WechatyError::InvalidOperation(
                        String::from_str("Can only accept a friendship of the Receive type"),
                    ),
                )
            },
        }
    }

    /// The outcome of an accepted request, once the contact behind it has been
    /// reloaded: success if it loaded, else the request may or may not have
    /// gone through.
    pub fn accept_outcome(contact: &Contact) -> (r: Result<(), WechatyError>)
        ensures
            contact.payload is Some ==> r is Ok,
            contact.payload is None ==> (r matches Err(WechatyError::Maybe(m)) && m@
                == "Failed to accept the friendship, contact: "@ + contact_identity(contact.id@, contact.payload)),
    {
        if contact.is_ready() {
            Ok(())
        } else {
            let mut m = String::from_str("Failed to accept the friendship, contact: ");
            let shown = contact.identity();
            m.append(shown.as_str());
            Err(WechatyError::Maybe(m))
        }
    }
}

} // verus!
