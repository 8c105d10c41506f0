use vstd::prelude::*;

use crate::schemas::{PayloadType, ScanStatus};

verus! {

/// A friendship request arrived or changed.
#[derive(Clone, Debug)]
pub struct EventFriendshipPayload {
    pub friendship_id: String,
}

/// The session logged in as this contact.
#[derive(Clone, Debug)]
pub struct EventLoginPayload {
    pub contact_id: String,
}

/// The session logged out.
#[derive(Clone, Debug)]
pub struct EventLogoutPayload {
    pub contact_id: String,
    pub data: String,
}

/// A message arrived.
#[derive(Clone, Debug)]
pub struct EventMessagePayload {
    pub message_id: String,
}

/// An invitation to a room arrived.
#[derive(Clone, Debug)]
pub struct EventRoomInvitePayload {
    pub room_invitation_id: String,
}

/// Contacts joined a room.
#[derive(Clone, Debug)]
pub struct EventRoomJoinPayload {
    pub invitee_id_list: Vec<String>,
    pub inviter_id: String,
    pub room_id: String,
    pub timestamp: u64,
}

/// Contacts left a room.
#[derive(Clone, Debug)]
pub struct EventRoomLeavePayload {
    pub removee_id_list: Vec<String>,
    pub remover_id: String,
    pub room_id: String,
    pub timestamp: u64,
}

/// A room's topic changed.
#[derive(Clone, Debug)]
pub struct EventRoomTopicPayload {
    pub changer_id: String,
    pub new_topic: String,
    pub old_topic: String,
    pub room_id: String,
    pub timestamp: u64,
}

/// Progress of a login QR-code scan.
#[derive(Clone, Debug)]
pub struct EventScanPayload {
    pub status: ScanStatus,
    pub qrcode: Option<String>,
    pub data: Option<String>,
}

/// Answer to a ding.
#[derive(Clone, Debug)]
pub struct EventDongPayload {
    pub data: String,
}

/// The backend reported an error.
#[derive(Clone, Debug)]
pub struct EventErrorPayload {
    pub data: String,
}

/// The backend is ready.
#[derive(Clone, Debug)]
pub struct EventReadyPayload {
    pub data: String,
}

/// The backend was reset.
#[derive(Clone, Debug)]
pub struct EventResetPayload {
    pub data: String,
}

/// The backend is alive.
#[derive(Clone, Debug)]
pub struct EventHeartbeatPayload {
    pub data: String,
}

/// A cached payload is stale.
#[derive(Clone, Debug)]
pub struct EventDirtyPayload {
    pub payload_type: PayloadType,
    pub payload_id: String,
}

/// A decoded event from the backend.
#[derive(Clone, Debug)]
pub enum PuppetEvent {
    Dirty(EventDirtyPayload),
    Dong(EventDongPayload),
    Error(EventErrorPayload),
    Friendship(EventFriendshipPayload),
    Heartbeat(EventHeartbeatPayload),
    Login(EventLoginPayload),
    Logout(EventLogoutPayload),
    Message(EventMessagePayload),
    Ready(EventReadyPayload),
    Reset(EventResetPayload),
    RoomInvite(EventRoomInvitePayload),
    RoomJoin(EventRoomJoinPayload),
    RoomLeave(EventRoomLeavePayload),
    RoomTopic(EventRoomTopicPayload),
    Scan(EventScanPayload),
}

/// The event kinds that listeners can subscribe to.
#[derive(Clone, Copy, Debug, PartialEq, Eq, Structural)]
pub enum EventKind {
    Dong,
    Error,
    Friendship,
    Heartbeat,
    Login,
    Logout,
    Message,
    Ready,
    Reset,
    RoomInvite,
    RoomJoin,
    RoomLeave,
    RoomTopic,
    Scan,
}

/// The subscription kind of an event; dirty signals have no subscribers.
pub open spec fn kind_of(e: PuppetEvent) -> Option<EventKind> {
    match e {
        PuppetEvent::Dirty(_) => None,
        PuppetEvent::Dong(_) => Some(EventKind::Dong),
        PuppetEvent::Error(_) => Some(EventKind::Error),
        PuppetEvent::Friendship(_) => Some(EventKind::Friendship),
        PuppetEvent::Heartbeat(_) => Some(EventKind::Heartbeat),
        PuppetEvent::Login(_) => Some(EventKind::Login),
        PuppetEvent::Logout(_) => Some(EventKind::Logout),
        PuppetEvent::Message(_) => Some(EventKind::Message),
        PuppetEvent::Ready(_) => Some(EventKind::Ready),
        PuppetEvent::Reset(_) => Some(EventKind::Reset),
        PuppetEvent::RoomInvite(_) => Some(EventKind::RoomInvite),
        PuppetEvent::RoomJoin(_) => Some(EventKind::RoomJoin),
        PuppetEvent::RoomLeave(_) => Some(EventKind::RoomLeave),
        PuppetEvent::RoomTopic(_) => Some(EventKind::RoomTopic),
        PuppetEvent::Scan(_) => Some(EventKind::Scan),
    }
}

impl PuppetEvent {
    /// The subscription kind of this event, if it has one.
    pub fn kind(&self) -> (r: Option<EventKind>)
        ensures
            r == kind_of(*self),
    {
        match self {
            PuppetEvent::Dirty(_) => None,
            PuppetEvent::Dong(_) => Some(EventKind::Dong),
            PuppetEvent::Error(_) => Some(EventKind::Error),
            PuppetEvent::Friendship(_) => Some(EventKind::Friendship),
            PuppetEvent::Heartbeat(_) => Some(EventKind::Heartbeat),
            PuppetEvent::Login(_) => Some(EventKind::Login),
            PuppetEvent::Logout(_) => Some(EventKind::Logout),
            PuppetEvent::Message(_) => Some(EventKind::Message),
            PuppetEvent::Ready(_) => Some(EventKind::Ready),
            PuppetEvent::Reset(_) => Some(EventKind::Reset),
            PuppetEvent::RoomInvite(_) => Some(EventKind::RoomInvite),
            PuppetEvent::RoomJoin(_) => Some(EventKind::RoomJoin),
            PuppetEvent::RoomLeave(_) => Some(EventKind::RoomLeave),
            PuppetEvent::RoomTopic(_) => Some(EventKind::RoomTopic),
            PuppetEvent::Scan(_) => Some(EventKind::Scan),
        }
    }
}

} // verus!
