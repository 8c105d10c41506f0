use vstd::prelude::*;

use crate::cache::CacheKind;
use crate::context::WechatyContext;
use crate::error::PuppetError;
use crate::events::PuppetEvent;
use crate::query::views;
use crate::schemas::{MessagePayload, MessageType};

verus! {

/// An entity to load from the cache (or the backend) before handlers run.
#[derive(Clone, Debug)]
pub struct HydrationRequest {
    pub kind: CacheKind,
    pub id: String,
}

/// The (kind, id) pairs of a list of requests.
pub open spec fn request_views(v: Seq<HydrationRequest>) -> Seq<(CacheKind, Seq<char>)> {
    v.map_values(|h: HydrationRequest| (h.kind, h.id@))
}

/// Contact requests for each id, in order.
pub open spec fn contact_requests(ids: Seq<String>) -> Seq<(CacheKind, Seq<char>)> {
    ids.map_values(|s: String| (CacheKind::Contact, s@))
}

/// The entities an event refers to by id, which are loaded before its handlers
/// run: room events load the room, the acting contact, then every listed contact.
pub open spec fn hydration_of(e: PuppetEvent) -> Seq<(CacheKind, Seq<char>)> {
    match e {
        PuppetEvent::Friendship(p) => seq![(CacheKind::Friendship, p.friendship_id@)],
        PuppetEvent::Login(p) => seq![(CacheKind::Contact, p.contact_id@)],
        PuppetEvent::Logout(p) => seq![(CacheKind::Contact, p.contact_id@)],
        PuppetEvent::Message(p) => seq![(CacheKind::Message, p.message_id@)],
        PuppetEvent::RoomInvite(p) => seq![(CacheKind::RoomInvitation, p.room_invitation_id@)],
        PuppetEvent::RoomJoin(p) => seq![(CacheKind::Room, p.room_id@), (CacheKind::Contact, p.inviter_id@)]
            + contact_requests(p.invitee_id_list@),
        PuppetEvent::RoomLeave(p) => seq![(CacheKind::Room, p.room_id@), (CacheKind::Contact, p.remover_id@)]
            + contact_requests(p.removee_id_list@),
        PuppetEvent::RoomTopic(p) => seq![(CacheKind::Room, p.room_id@), (CacheKind::Contact, p.changer_id@)],
        _ => Seq::empty(),
    }
}

/// Appends a contact request for each id.
fn push_contacts(out: &mut Vec<HydrationRequest>, ids: &Vec<String>)
    ensures
        request_views(final(out)@) == request_views(old(out)@) + contact_requests(ids@),
{
    let ghost start = request_views(out@);
    let mut i: usize = 0;
    while i < ids.len()
        invariant
            0 <= i <= ids@.len(),
            request_views(out@) == start + contact_requests(ids@.subrange(0, i as int)),
        decreases ids@.len() - i,
    {
        let ghost before = request_views(out@);
        out.push(HydrationRequest { kind: CacheKind::Contact, id: ids[i].clone() });
        assert(request_views(out@) =~= before.push((CacheKind::Contact, ids@[i as int]@)));
        assert(contact_requests(ids@.subrange(0, i + 1)) =~= contact_requests(ids@.subrange(0, i as int)).push(
            (CacheKind::Contact, ids@[i as int]@),
        ));
        i = i + 1;
    }
    assert(ids@.subrange(0, ids@.len() as int) == ids@);
}

/// The entities to load before the handlers of `event` run.
pub fn hydration_targets(event: &PuppetEvent) -> (r: Vec<HydrationRequest>)
    ensures
        request_views(r@) == hydration_of(*event),
{
    let mut out: Vec<HydrationRequest> = Vec::new();
    match event {
        PuppetEvent::Friendship(p) => {
            out.push(HydrationRequest { kind: CacheKind::Friendship, id: p.friendship_id.clone() });
        },
        PuppetEvent::Login(p) => {
            out.push(HydrationRequest { kind: CacheKind::Contact, id: p.contact_id.clone() });
        },
        PuppetEvent::Logout(p) => {
            out.push(HydrationRequest { kind: CacheKind::Contact, id: p.contact_id.clone() });
        },
        PuppetEvent::Message(p) => {
            out.push(HydrationRequest { kind: CacheKind::Message, id: p.message_id.clone() });
        },
        PuppetEvent::RoomInvite(p) => {
            out.push(HydrationRequest { kind: CacheKind::RoomInvitation, id: p.room_invitation_id.clone() });
        },
        PuppetEvent::RoomJoin(p) => {
            out.push(HydrationRequest { kind: CacheKind::Room, id: p.room_id.clone() });
            out.push(HydrationRequest { kind: CacheKind::Contact, id: p.inviter_id.clone() });
            push_contacts(&mut out, &p.invitee_id_list);
        },
        PuppetEvent::RoomLeave(p) => {
            out.push(HydrationRequest { kind: CacheKind::Room, id: p.room_id.clone() });
            out.push(HydrationRequest { kind: CacheKind::Contact, id: p.remover_id.clone() });
            push_contacts(&mut out, &p.removee_id_list);
        },
        PuppetEvent::RoomTopic(p) => {
            out.push(HydrationRequest { kind: CacheKind::Room, id: p.room_id.clone() });
            out.push(HydrationRequest { kind: CacheKind::Contact, id: p.changer_id.clone() });
        },
        _ => {},
    }
    proof {
        assert(request_views(out@) =~= hydration_of(*event));
    }
    out
}

/// The entities a loaded message refers to: its sender, its receiver and its
/// room, each only when the message names one.
pub open spec fn message_refs(p: MessagePayload) -> Seq<(CacheKind, Seq<char>)> {
    (if p.from_id@.len() > 0 {
        seq![(CacheKind::Contact, p.from_id@)]
    } else {
        Seq::empty()
    }) + (if p.to_id@.len() > 0 {
        seq![(CacheKind::Contact, p.to_id@)]
    } else {
        Seq::empty()
    }) + (if p.room_id@.len() > 0 {
        seq![(CacheKind::Room, p.room_id@)]
    } else {
        Seq::empty()
    })
}

/// The entities to load once a message's payload is known.
pub fn message_related(p: &MessagePayload) -> (r: Vec<HydrationRequest>)
    ensures
        request_views(r@) == message_refs(*p),
{
    let mut out: Vec<HydrationRequest> = Vec::new();
    if !p.from_id.as_str().is_empty() {
        out.push(HydrationRequest { kind: CacheKind::Contact, id: p.from_id.clone() });
    }
    if !p.to_id.as_str().is_empty() {
        out.push(HydrationRequest { kind: CacheKind::Contact, id: p.to_id.clone() });
    }
    if !p.room_id.as_str().is_empty() {
        out.push(HydrationRequest { kind: CacheKind::Room, id: p.room_id.clone() });
    }
    proof {
        assert(request_views(out@) =~= message_refs(*p));
    }
    out
}

/// The conversation a message belongs to: its room, or else its sender.
pub open spec fn conversation_of(p: MessagePayload) -> Option<Seq<char>> {
    if p.room_id@.len() > 0 {
        Some(p.room_id@)
    } else if p.from_id@.len() > 0 {
        Some(p.from_id@)
    } else {
        None
    }
}

/// The id in `s`, when it names one.
pub open spec fn named_id(s: String) -> Option<Seq<char>> {
    if s@.len() > 0 {
        Some(s@)
    } else {
        None
    }
}

/// Copies a non-empty id.
fn non_empty(s: &String) -> (r: Option<String>)
    ensures
        r matches Some(x) ==> named_id(*s) == Some(x@),
        r is None ==> named_id(*s) is None,
{
    if s.as_str().is_empty() {
        None
    } else {
        Some(s.clone())
    }
}

/// A message and its payload, when loaded.
#[derive(Clone, Debug)]
pub struct Message {
    pub id: String,
    pub payload: Option<MessagePayload>,
}

impl Message {
    /// Whether the payload has loaded.
    pub fn is_ready(&self) -> (r: bool)
        ensures
            r == self.payload is Some,
    {
        self.payload.is_some()
    }

    /// The id of the conversation (room, or else sender) the message belongs to.
    pub fn conversation_id(&self) -> (r: Option<String>)
        ensures
            self.payload is None ==> r is None,
            self.payload matches Some(p) ==> (r matches Some(s) ==> conversation_of(p) == Some(s@)),
            self.payload matches Some(p) ==> (r is None ==> conversation_of(p) is None),
    {
        match &self.payload {
            Some(p) => {
                if !p.room_id.as_str().is_empty() {
                    Some(p.room_id.clone())
                } else if !p.from_id.as_str().is_empty() {
                    Some(p.from_id.clone())
                } else {
                    None
                }
            },
            None => None,
        }
    }

    /// The sender's contact id, when the message names one.
    pub fn from(&self) -> (r: Option<String>)
        ensures
            self.payload is None ==> r is None,
            self.payload matches Some(p) ==> (r matches Some(x) ==> named_id(p.from_id) == Some(x@)),
            self.payload matches Some(p) ==> (r is None ==> named_id(p.from_id) is None),
    {
        match &self.payload {
            Some(p) => non_empty(&p.from_id),
            None => None,
        }
    }

    /// The receiver's contact id, when the message names one.
    pub fn to(&self) -> (r: Option<String>)
        ensures
            self.payload is None ==> r is None,
            self.payload matches Some(p) ==> (r matches Some(x) ==> named_id(p.to_id) == Some(x@)),
            self.payload matches Some(p) ==> (r is None ==> named_id(p.to_id) is None),
    {
        match &self.payload {
            Some(p) => non_empty(&p.to_id),
            None => None,
        }
    }

    /// The room's id, when the message was sent in one.
    pub fn room(&self) -> (r: Option<String>)
        ensures
            self.payload is None ==> r is None,
            self.payload matches Some(p) ==> (r matches Some(x) ==> named_id(p.room_id) == Some(x@)),
            self.payload matches Some(p) ==> (r is None ==> named_id(p.room_id) is None),
    {
        match &self.payload {
            Some(p) => non_empty(&p.room_id),
            None => None,
        }
    }

    /// Whether the message was sent in a room.
    pub fn is_in_room(&self) -> (r: bool)
        ensures
            r == (self.payload matches Some(p) && p.room_id@.len() > 0),
    {
        match &self.payload {
            Some(p) => !p.room_id.as_str().is_empty(),
            None => false,
        }
    }

    /// Whether the logged-in account sent the message.
    pub fn is_self(&self, ctx: &WechatyContext) -> (r: bool)
        ensures
            r == (self.payload matches Some(p) && p.from_id@.len() > 0 && ctx.identity() == Some(p.from_id@)),
    {
        match (&self.payload, &ctx.self_id) {
            (Some(p), Some(me)) => !p.from_id.as_str().is_empty() && p.from_id.eq(me),
            _ => false,
        }
    }

    /// Whether the message mentions the logged-in account.
    pub fn mentioned_self(&self, ctx: &WechatyContext) -> (r: bool)
        ensures
            r == (self.payload matches Some(p) && ctx.identity() matches Some(me) && views(
                p.mention_id_list@,
            ).contains(me)),
    {
        match (&self.payload, &ctx.self_id) {
            (Some(p), Some(me)) => crate::query::list_contains(&p.mention_id_list, me),
            _ => false,
        }
    }

    /// When the message was sent, once loaded.
    pub fn timestamp(&self) -> (r: Option<u64>)
        ensures
            r is Some <==> self.payload is Some,
            r matches Some(t) ==> t == self.payload->Some_0.timestamp,
    {
        match &self.payload {
            Some(p) => Some(p.timestamp),
            None => None,
        }
    }

    /// The message's age in seconds at time `now`; zero when not loaded or
    /// when the timestamp lies in the future.
    pub fn age(&self, now: u64) -> (r: u64)
        ensures
            self.payload is None ==> r == 0,
            self.payload matches Some(p) ==> r == if now >= p.timestamp {
                (now - p.timestamp) as u64
            } else {
                0u64
            },
    {
        match &self.payload {
            Some(p) => if now >= p.timestamp {
                now - p.timestamp
            } else {
                0
            },
            None => 0,
        }
    }

    /// The kind of the message, once loaded.
    pub fn message_type(&self) -> (r: Option<MessageType>)
        ensures
            r is Some <==> self.payload is Some,
            r matches Some(t) ==> t == self.payload->Some_0.message_type,
    {
        match &self.payload {
            Some(p) => Some(p.message_type),
            None => None,
        }
    }

    /// The message's text, once loaded.
    pub fn text(&self) -> (r: Option<String>)
        ensures
            r is Some <==> self.payload is Some,
            r matches Some(t) ==> t@ == self.payload->Some_0.text@,
    {
        match &self.payload {
            Some(p) => Some(p.text.clone()),
            None => None,
        }
    }
}

/// How a message is forwarded, by its kind.
#[derive(Clone, Copy, Debug, PartialEq, Eq, Structural)]
pub enum ForwardAction {
    /// Fetch the attached file, then send it.
    SendFile,
    /// Send the message's text.
    SendText,
    /// Fetch the mini program, then send it.
    SendMiniProgram,
    /// Fetch the link, then send it.
    SendUrl,
    /// Fetch the shared contact, then send it.
    SendContact,
}

/// The name of a message type.
pub open spec fn message_type_name(t: MessageType) -> Seq<char> {
    match t {
        MessageType::Unknown => "Unknown"@,
        MessageType::Attachment => "Attachment"@,
        MessageType::Audio => "Audio"@,
        MessageType::Contact => "Contact"@,
        MessageType::ChatHistory => "ChatHistory"@,
        MessageType::Emoticon => "Emoticon"@,
        MessageType::Image => "Image"@,
        MessageType::Text => "Text"@,
        MessageType::Location => "Location"@,
        MessageType::MiniProgram => "MiniProgram"@,
        MessageType::GroupNote => "GroupNote"@,
        MessageType::Transfer => "Transfer"@,
        MessageType::RedEnvelope => "RedEnvelope"@,
        MessageType::Recalled => "Recalled"@,
        MessageType::Url => "Url"@,
        MessageType::Video => "Video"@,
    }
}

/// The name of a message type.
pub fn message_kind_name(t: MessageType) -> (r: String)
    ensures
        r@ == message_type_name(t),
{
    match t {
        MessageType::Unknown => String::from_str("Unknown"),
        MessageType::Attachment => String::from_str("Attachment"),
        MessageType::Audio => String::from_str("Audio"),
        MessageType::Contact => String::from_str("Contact"),
        MessageType::ChatHistory => String::from_str("ChatHistory"),
        MessageType::Emoticon => String::from_str("Emoticon"),
        MessageType::Image => String::from_str("Image"),
        MessageType::Text => String::from_str("Text"),
        MessageType::Location => String::from_str("Location"),
        MessageType::MiniProgram => String::from_str("MiniProgram"),
        MessageType::GroupNote => String::from_str("GroupNote"),
        MessageType::Transfer => String::from_str("Transfer"),
        MessageType::RedEnvelope => String::from_str("RedEnvelope"),
        MessageType::Recalled => String::from_str("Recalled"),
        MessageType::Url => String::from_str("Url"),
        MessageType::Video => String::from_str("Video"),
    }
}

/// Kinds of message that can be forwarded as they are: files, text, mini
/// programs, links and contact cards.
pub open spec fn forwardable(t: MessageType) -> Option<ForwardAction> {
    match t {
        MessageType::Attachment | MessageType::Audio | MessageType::Image | MessageType::Video => Some(
            ForwardAction::SendFile,
        ),
        MessageType::Text => Some(ForwardAction::SendText),
        MessageType::MiniProgram => Some(ForwardAction::SendMiniProgram),
        MessageType::Url => Some(ForwardAction::SendUrl),
        MessageType::Contact => Some(ForwardAction::SendContact),
        _ => None,
    }
}

/// Decides how a message of type `t` is forwarded. Unknown messages and the
/// kinds that cannot be resent are errors.
pub fn forward_action(t: MessageType) -> (r: Result<ForwardAction, PuppetError>)
    ensures
        forwardable(t) matches Some(a) ==> r == Ok::<ForwardAction, PuppetError>(a),
        t == MessageType::Unknown ==> r matches Err(PuppetError::UnknownMessageType),
        forwardable(t) is None && t != MessageType::Unknown ==> (r matches Err(PuppetError::Unsupported(m)) && m@
            == "sending "@ + message_type_name(t) + " messages"@),
{
    match t {
        MessageType::Attachment | MessageType::Audio | MessageType::Image | MessageType::Video => Ok(
            ForwardAction::SendFile,
        ),
        MessageType::Text => Ok(ForwardAction::SendText),
        MessageType::MiniProgram => Ok(ForwardAction::SendMiniProgram),
        MessageType::Url => Ok(ForwardAction::SendUrl),
        MessageType::Contact => Ok(ForwardAction::SendContact),
        MessageType::Unknown => Err(PuppetError::UnknownMessageType),
        _ => {
            let mut m = String::from_str("sending ");
            let name = message_kind_name(t);
            m.append(name.as_str());
            m.append(" messages");
            Err(PuppetError::Unsupported(m))
        },
    }
}

} // verus!
