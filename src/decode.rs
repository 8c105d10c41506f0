use vstd::prelude::*;

use crate::events::{
    EventDirtyPayload, EventDongPayload, EventErrorPayload, EventFriendshipPayload, EventHeartbeatPayload,
    EventLoginPayload, EventLogoutPayload, EventMessagePayload, EventReadyPayload, EventResetPayload,
    EventRoomInvitePayload, EventRoomJoinPayload, EventRoomLeavePayload, EventRoomTopicPayload,
    EventScanPayload, PuppetEvent,
};
use crate::schemas::{PayloadType, ScanStatus};

verus! {

/// Wire tag of a frame that carries nothing.
pub const EVENT_TYPE_UNSPECIFIED: i32 = 0;
/// Wire tag of a heartbeat frame.
pub const EVENT_TYPE_HEARTBEAT: i32 = 1;
/// Wire tag of a message frame.
pub const EVENT_TYPE_MESSAGE: i32 = 2;
/// Wire tag of a dong frame.
pub const EVENT_TYPE_DONG: i32 = 3;
/// Wire tag of an error frame.
pub const EVENT_TYPE_ERROR: i32 = 16;
/// Wire tag of a friendship frame.
pub const EVENT_TYPE_FRIENDSHIP: i32 = 17;
/// Wire tag of a room-invite frame.
pub const EVENT_TYPE_ROOM_INVITE: i32 = 18;
/// Wire tag of a room-join frame.
pub const EVENT_TYPE_ROOM_JOIN: i32 = 19;
/// Wire tag of a room-leave frame.
pub const EVENT_TYPE_ROOM_LEAVE: i32 = 20;
/// Wire tag of a room-topic frame.
pub const EVENT_TYPE_ROOM_TOPIC: i32 = 21;
/// Wire tag of a scan frame.
pub const EVENT_TYPE_SCAN: i32 = 22;
/// Wire tag of a ready frame.
pub const EVENT_TYPE_READY: i32 = 23;
/// Wire tag of a reset frame.
pub const EVENT_TYPE_RESET: i32 = 24;
/// Wire tag of a login frame.
pub const EVENT_TYPE_LOGIN: i32 = 25;
/// Wire tag of a logout frame.
pub const EVENT_TYPE_LOGOUT: i32 = 26;
/// Wire tag of a dirty frame.
pub const EVENT_TYPE_DIRTY: i32 = 27;

/// The body of a raw frame: every field any event kind may carry, each optional.
/// Scan status and payload type are kept as their wire integers.
#[derive(Clone, Debug)]
pub struct RawEventFields {
    pub data: Option<String>,
    pub contact_id: Option<String>,
    pub message_id: Option<String>,
    pub room_invitation_id: Option<String>,
    pub friendship_id: Option<String>,
    pub qrcode: Option<String>,
    pub status: Option<i32>,
    pub timestamp: Option<u64>,
    pub changer_id: Option<String>,
    pub new_topic: Option<String>,
    pub old_topic: Option<String>,
    pub room_id: Option<String>,
    pub removee_id_list: Option<Vec<String>>,
    pub remover_id: Option<String>,
    pub invitee_id_list: Option<Vec<String>>,
    pub inviter_id: Option<String>,
    pub payload_type: Option<i32>,
    pub payload_id: Option<String>,
}

/// Why a raw frame was dropped.
#[derive(Clone, Copy, Debug, PartialEq, Eq, Structural)]
pub enum DecodeError {
    /// The frame's tag names no event kind.
    UnknownEventKind(i32),
    /// A field that frames with this tag must carry is absent or out of range.
    MissingField(i32),
}

/// Tags that name an event kind (including the deliberate no-op tag).
pub open spec fn known_event_type(t: i32) -> bool {
    t == EVENT_TYPE_UNSPECIFIED || t == EVENT_TYPE_HEARTBEAT || t == EVENT_TYPE_MESSAGE || t == EVENT_TYPE_DONG
        || (EVENT_TYPE_ERROR <= t <= EVENT_TYPE_DIRTY)
}

/// Some scan status has this wire integer.
pub open spec fn scan_status_code(c: i32) -> bool {
    exists|s: ScanStatus| #[trigger] s.code() == c
}

/// The scan status with this wire integer.
pub open spec fn scan_status_of(c: i32) -> ScanStatus {
    choose|s: ScanStatus| #[trigger] s.code() == c
}

/// Some payload type has this wire integer.
pub open spec fn payload_type_code(c: i32) -> bool {
    exists|p: PayloadType| #[trigger] p.code() == c
}

/// The payload type with this wire integer.
pub open spec fn payload_type_of(c: i32) -> PayloadType {
    choose|p: PayloadType| #[trigger] p.code() == c
}

/// The fields that a frame with tag `t` must carry are all there.
pub open spec fn required_fields_present(t: i32, f: RawEventFields) -> bool {
    if t == EVENT_TYPE_HEARTBEAT || t == EVENT_TYPE_DONG || t == EVENT_TYPE_ERROR || t == EVENT_TYPE_READY || t
        == EVENT_TYPE_RESET {
        f.data is Some
    } else if t == EVENT_TYPE_MESSAGE {
        f.message_id is Some
    } else if t == EVENT_TYPE_FRIENDSHIP {
        f.friendship_id is Some
    } else if t == EVENT_TYPE_ROOM_INVITE {
        f.room_invitation_id is Some
    } else if t == EVENT_TYPE_ROOM_JOIN {
        f.room_id is Some && f.invitee_id_list is Some && f.inviter_id is Some && f.timestamp is Some
    } else if t == EVENT_TYPE_ROOM_LEAVE {
        f.room_id is Some && f.removee_id_list is Some && f.remover_id is Some && f.timestamp is Some
    } else if t == EVENT_TYPE_ROOM_TOPIC {
        f.room_id is Some && f.changer_id is Some && f.old_topic is Some && f.new_topic is Some
            && f.timestamp is Some
    } else if t == EVENT_TYPE_SCAN {
        f.status matches Some(c) && scan_status_code(c)
    } else if t == EVENT_TYPE_LOGIN {
        f.contact_id is Some
    } else if t == EVENT_TYPE_LOGOUT {
        f.contact_id is Some && f.data is Some
    } else if t == EVENT_TYPE_DIRTY {
        f.payload_type matches Some(c) && payload_type_code(c) && f.payload_id is Some
    } else {
        true
    }
}

/// The event that a frame with tag `t` and all its required fields stands for.
pub open spec fn event_from(t: i32, f: RawEventFields) -> PuppetEvent {
    if t == EVENT_TYPE_HEARTBEAT {
        PuppetEvent::Heartbeat(EventHeartbeatPayload { data: f.data->Some_0 })
    } else if t == EVENT_TYPE_DONG {
        PuppetEvent::Dong(EventDongPayload { data: f.data->Some_0 })
    } else if t == EVENT_TYPE_ERROR {
        PuppetEvent::Error(EventErrorPayload { data: f.data->Some_0 })
    } else if t == EVENT_TYPE_READY {
        PuppetEvent::Ready(EventReadyPayload { data: f.data->Some_0 })
    } else if t == EVENT_TYPE_RESET {
        PuppetEvent::Reset(EventResetPayload { data: f.data->Some_0 })
    } else if t == EVENT_TYPE_MESSAGE {
        PuppetEvent::Message(EventMessagePayload { message_id: f.message_id->Some_0 })
    } else if t == EVENT_TYPE_FRIENDSHIP {
        PuppetEvent::Friendship(EventFriendshipPayload { friendship_id: f.friendship_id->Some_0 })
    } else if t == EVENT_TYPE_ROOM_INVITE {
        PuppetEvent::RoomInvite(EventRoomInvitePayload { room_invitation_id: f.room_invitation_id->Some_0 })
    } else if t == EVENT_TYPE_ROOM_JOIN {
        PuppetEvent::RoomJoin(
            EventRoomJoinPayload {
                invitee_id_list: f.invitee_id_list->Some_0,
                inviter_id: f.inviter_id->Some_0,
                room_id: f.room_id->Some_0,
                timestamp: f.timestamp->Some_0,
            },
        )
    } else if t == EVENT_TYPE_ROOM_LEAVE {
        PuppetEvent::RoomLeave(
            EventRoomLeavePayload {
                removee_id_list: f.removee_id_list->Some_0,
                remover_id: f.remover_id->Some_0,
                room_id: f.room_id->Some_0,
                timestamp: f.timestamp->Some_0,
            },
        )
    } else if t == EVENT_TYPE_ROOM_TOPIC {
        PuppetEvent::RoomTopic(
            EventRoomTopicPayload {
                changer_id: f.changer_id->Some_0,
                new_topic: f.new_topic->Some_0,
                old_topic: f.old_topic->Some_0,
                room_id: f.room_id->Some_0,
                timestamp: f.timestamp->Some_0,
            },
        )
    } else if t == EVENT_TYPE_SCAN {
        PuppetEvent::Scan(
            EventScanPayload { status: scan_status_of(f.status->Some_0), qrcode: f.qrcode, data: f.data },
        )
    } else if t == EVENT_TYPE_LOGIN {
        PuppetEvent::Login(EventLoginPayload { contact_id: f.contact_id->Some_0 })
    } else if t == EVENT_TYPE_LOGOUT {
        PuppetEvent::Logout(EventLogoutPayload { contact_id: f.contact_id->Some_0, data: f.data->Some_0 })
    } else {
        PuppetEvent::Dirty(
            EventDirtyPayload {
                payload_type: payload_type_of(f.payload_type->Some_0),
                payload_id: f.payload_id->Some_0,
            },
        )
    }
}

/// What decoding a frame yields: nothing for the no-op tag, an error for an
/// unknown tag or a missing required field, and otherwise the event.
pub open spec fn decoded(t: i32, f: RawEventFields) -> Result<Option<PuppetEvent>, DecodeError> {
    if t == EVENT_TYPE_UNSPECIFIED {
        Ok(None)
    } else if !known_event_type(t) {
        Err(DecodeError::UnknownEventKind(t))
    } else if !required_fields_present(t, f) {
        Err(DecodeError::MissingField(t))
    } else {
        Ok(Some(event_from(t, f)))
    }
}

/// Decodes one raw frame. A frame is never partly decoded: either every field
/// its kind requires is present and the event is built, or it is dropped.
pub fn decode_frame(event_type: i32, fields: RawEventFields) -> (r: Result<Option<PuppetEvent>, DecodeError>)
    ensures
        r == decoded(event_type, fields),
{
    let ghost f = fields;
    let RawEventFields {
        data,
        contact_id,
        message_id,
        room_invitation_id,
        friendship_id,
        qrcode,
        status,
        timestamp,
        changer_id,
        new_topic,
        old_topic,
        room_id,
        removee_id_list,
        remover_id,
        invitee_id_list,
        inviter_id,
        payload_type,
        payload_id,
    } = fields;
    if event_type == EVENT_TYPE_UNSPECIFIED {
        Ok(None)
    } else if event_type == EVENT_TYPE_HEARTBEAT || event_type == EVENT_TYPE_DONG || event_type == EVENT_TYPE_ERROR
        || event_type == EVENT_TYPE_READY || event_type == EVENT_TYPE_RESET {
        match data {
            None => Err(DecodeError::MissingField(event_type)),
            Some(data) => {
                if event_type == EVENT_TYPE_HEARTBEAT {
                    Ok(Some(PuppetEvent::Heartbeat(EventHeartbeatPayload { data })))
                } else if event_type == EVENT_TYPE_DONG {
                    Ok(Some(PuppetEvent::Dong(EventDongPayload { data })))
                } else if event_type == EVENT_TYPE_ERROR {
                    Ok(Some(PuppetEvent::Error(EventErrorPayload { data })))
                } else if event_type == EVENT_TYPE_READY {
                    Ok(Some(PuppetEvent::Ready(EventReadyPayload { data })))
                } else {
                    Ok(Some(PuppetEvent::Reset(EventResetPayload { data })))
                }
            },
        }
    } else if event_type == EVENT_TYPE_MESSAGE {
        match message_id {
            Some(message_id) => Ok(Some(PuppetEvent::Message(EventMessagePayload { message_id }))),
            None => Err(DecodeError::MissingField(event_type)),
        }
    } else if event_type == EVENT_TYPE_FRIENDSHIP {
        match friendship_id {
            Some(friendship_id) => Ok(Some(PuppetEvent::Friendship(EventFriendshipPayload { friendship_id }))),
            None => Err(DecodeError::MissingField(event_type)),
        }
    } else if event_type == EVENT_TYPE_ROOM_INVITE {
        match room_invitation_id {
            Some(room_invitation_id) => Ok(
                Some(PuppetEvent::RoomInvite(EventRoomInvitePayload { room_invitation_id })),
            ),
            None => Err(DecodeError::MissingField(event_type)),
        }
    } else if event_type == EVENT_TYPE_ROOM_JOIN {
        match (room_id, invitee_id_list, inviter_id, timestamp) {
            (Some(room_id), Some(invitee_id_list), Some(inviter_id), Some(timestamp)) => Ok(
                Some(PuppetEvent::RoomJoin(EventRoomJoinPayload { invitee_id_list, inviter_id, room_id, timestamp })),
            ),
            _ => Err(DecodeError::MissingField(event_type)),
        }
    } else if event_type == EVENT_TYPE_ROOM_LEAVE {
        match (room_id, removee_id_list, remover_id, timestamp) {
            (Some(room_id), Some(removee_id_list), Some(remover_id), Some(timestamp)) => Ok(
                Some(PuppetEvent::RoomLeave(EventRoomLeavePayload { removee_id_list, remover_id, room_id, timestamp })),
            ),
            _ => Err(DecodeError::MissingField(event_type)),
        }
    } else if event_type == EVENT_TYPE_ROOM_TOPIC {
        match (room_id, changer_id, old_topic, new_topic, timestamp) {
            (Some(room_id), Some(changer_id), Some(old_topic), Some(new_topic), Some(timestamp)) => Ok(
                Some(
                    PuppetEvent::RoomTopic(
                        EventRoomTopicPayload { changer_id, new_topic, old_topic, room_id, timestamp },
                    ),
                ),
            ),
            _ => Err(DecodeError::MissingField(event_type)),
        }
    } else if event_type == EVENT_TYPE_SCAN {
        match status {
            Some(code) => match ScanStatus::from_i32(code) {
                Some(status) => {
                    proof {
                        assert(scan_status_code(code));
                        assert(scan_status_of(code) == status) by {
                            let s = scan_status_of(code);
                            assert(s.code() == code);
                        }
                    }
                    Ok(Some(PuppetEvent::Scan(EventScanPayload { status, qrcode, data })))
                },
                None => Err(DecodeError::MissingField(event_type)),
            },
            None => Err(DecodeError::MissingField(event_type)),
        }
    } else if event_type == EVENT_TYPE_LOGIN {
        match contact_id {
            Some(contact_id) => Ok(Some(PuppetEvent::Login(EventLoginPayload { contact_id }))),
            None => Err(DecodeError::MissingField(event_type)),
        }
    } else if event_type == EVENT_TYPE_LOGOUT {
        match (contact_id, data) {
            (Some(contact_id), Some(data)) => Ok(Some(PuppetEvent::Logout(EventLogoutPayload { contact_id, data }))),
            _ => Err(DecodeError::MissingField(event_type)),
        }
    } else if event_type == EVENT_TYPE_DIRTY {
        match (payload_type, payload_id) {
            (Some(code), Some(payload_id)) => match PayloadType::from_i32(code) {
                Some(payload_type) => {
                    proof {
                        assert(payload_type_code(code));
                        assert(payload_type_of(code) == payload_type) by {
                            let p = payload_type_of(code);
                            assert(p.code() == code);
                        }
                    }
                    Ok(Some(PuppetEvent::Dirty(EventDirtyPayload { payload_type, payload_id })))
                },
                None => Err(DecodeError::MissingField(event_type)),
            },
            _ => Err(DecodeError::MissingField(event_type)),
        }
    } else {
        Err(DecodeError::UnknownEventKind(event_type))
    }
}

/// A scan frame without a status is dropped, never delivered; a scan frame
/// whose status is Waiting and that carries no QR code and no data is delivered
/// with both of those fields absent.
pub proof fn lemma_scan_frame_validation(f: RawEventFields)
    ensures
        f.status is None ==> decoded(EVENT_TYPE_SCAN, f) == Err::<Option<PuppetEvent>, DecodeError>(
            DecodeError::MissingField(EVENT_TYPE_SCAN),
        ),
        (f.status == Some(ScanStatus::Waiting.code()) && f.qrcode is None && f.data is None) ==> decoded(
            EVENT_TYPE_SCAN,
            f,
        ) == Ok::<Option<PuppetEvent>, DecodeError>(
            Some(PuppetEvent::Scan(EventScanPayload { status: ScanStatus::Waiting, qrcode: None, data: None })),
        ),
{
    if f.status == Some(ScanStatus::Waiting.code()) {
        assert(ScanStatus::Waiting.code() == 2);
        assert(scan_status_code(2));
        let s = scan_status_of(2);
        assert(s.code() == 2);
        assert(s == ScanStatus::Waiting);
    }
}

/// A frame whose tag names no event kind is dropped as unknown. Decoding reads
/// nothing but the frame itself, so the frames after it are decoded as if it had
/// never come: a well-formed dong frame is delivered as a dong.
pub proof fn lemma_unknown_tag_dropped(t: i32, f: RawEventFields, next: RawEventFields)
    requires
        !known_event_type(t),
        next.data is Some,
    ensures
        decoded(t, f) == Err::<Option<PuppetEvent>, DecodeError>(DecodeError::UnknownEventKind(t)),
        decoded(EVENT_TYPE_DONG, next) == Ok::<Option<PuppetEvent>, DecodeError>(
            Some(PuppetEvent::Dong(EventDongPayload { data: next.data->Some_0 })),
        ),
{
}

} // verus!
