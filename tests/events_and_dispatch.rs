use wechaty::cache::{room_member_cache_key, CacheKind};
use wechaty::context::{EventListenerInner, WechatyContext};
use wechaty::decode::{decode_frame, DecodeError, RawEventFields};
use wechaty::dispatch::{handle_frame, FrameOutcome, Subscribe, SubscriberRegistry, UnSubscribe};
use wechaty::error::{PuppetError, WechatyError};
use wechaty::events::{EventKind, EventLoginPayload, EventLogoutPayload, EventRoomLeavePayload, PuppetEvent};
use wechaty::filebox::FileBox;
use wechaty::listener::ListenerRegistry;
use wechaty::lru_store::EntityPayload;
use wechaty::message::{forward_action, hydration_targets, message_related, ForwardAction, Message};
use wechaty::schemas::{
    FriendshipSceneType, FriendshipSearchQueryFilter, MessagePayload, MessageType, PayloadType, RoomPayload,
    ScanStatus, WechatMessageType,
};
use wechaty::service::{endpoint_source, friendship_search_route, EndpointSource, FriendshipSearchRoute, PuppetOptions};

fn empty_fields() -> RawEventFields {
    RawEventFields {
        data: None,
        contact_id: None,
        message_id: None,
        room_invitation_id: None,
        friendship_id: None,
        qrcode: None,
        status: None,
        timestamp: None,
        changer_id: None,
        new_topic: None,
        old_topic: None,
        room_id: None,
        removee_id_list: None,
        remover_id: None,
        invitee_id_list: None,
        inviter_id: None,
        payload_type: None,
        payload_id: None,
    }
}

fn s(v: &str) -> String {
    v.to_string()
}

fn message(room_id: &str, from_id: &str, mentions: Vec<String>) -> MessagePayload {
    MessagePayload {
        id: s("m"),
        filename: String::new(),
        text: s("hi"),
        timestamp: 100,
        message_type: MessageType::Text,
        from_id: s(from_id),
        mention_id_list: mentions,
        room_id: s(room_id),
        to_id: s("bot"),
    }
}

fn room(id: &str) -> RoomPayload {
    RoomPayload {
        id: s(id),
        topic: s("t"),
        avatar: String::new(),
        member_id_list: vec![],
        owner_id: String::new(),
        admin_id_list: vec![],
    }
}

#[test]
fn scan_without_status_is_dropped() {
    let mut registry: SubscriberRegistry<u32> = SubscriberRegistry::new();
    registry.subscribe(EventKind::Scan, s("bot"), 7);
    let out = handle_frame(&registry, 22, empty_fields());
    assert!(matches!(out, FrameOutcome::Dropped(DecodeError::MissingField(22))));
}

#[test]
fn scan_waiting_without_qrcode_is_delivered() {
    let mut f = empty_fields();
    f.status = Some(2);
    match decode_frame(22, f) {
        Ok(Some(PuppetEvent::Scan(p))) => {
            assert_eq!(p.status, ScanStatus::Waiting);
            assert!(p.qrcode.is_none());
            assert!(p.data.is_none());
        }
        _ => panic!("scan frame not decoded"),
    }
    let mut bad = empty_fields();
    bad.status = Some(42);
    assert_eq!(decode_frame(22, bad).err(), Some(DecodeError::MissingField(22)));
}

#[test]
fn unknown_tag_does_not_disturb_next_frame() {
    let mut registry: SubscriberRegistry<u32> = SubscriberRegistry::new();
    registry.subscribe(EventKind::Dong, s("bot"), 1);
    let dropped = handle_frame(&registry, 99, empty_fields());
    assert!(matches!(dropped, FrameOutcome::Dropped(DecodeError::UnknownEventKind(99))));
    let mut f = empty_fields();
    f.data = Some(s("pong"));
    match handle_frame(&registry, 3, f) {
        FrameOutcome::Publish(PuppetEvent::Dong(p), to) => {
            assert_eq!(p.data, "pong");
            assert_eq!(to, vec![0]);
            assert_eq!(*registry.target_at(0), 1);
        }
        _ => panic!("dong frame not published"),
    }
}

#[test]
fn unspecified_frame_is_a_no_op() {
    let registry: SubscriberRegistry<u32> = SubscriberRegistry::new();
    assert!(matches!(handle_frame(&registry, 0, empty_fields()), FrameOutcome::Ignored));
}

#[test]
fn room_join_needs_every_required_field() {
    let mut f = empty_fields();
    f.room_id = Some(s("r1"));
    f.inviter_id = Some(s("u1"));
    f.invitee_id_list = Some(vec![s("u2")]);
    assert_eq!(decode_frame(19, f.clone()).err(), Some(DecodeError::MissingField(19)));
    f.timestamp = Some(5);
    match decode_frame(19, f) {
        Ok(Some(PuppetEvent::RoomJoin(p))) => {
            assert_eq!(p.room_id, "r1");
            assert_eq!(p.inviter_id, "u1");
            assert_eq!(p.invitee_id_list, vec![s("u2")]);
            assert_eq!(p.timestamp, 5);
        }
        _ => panic!("room join not decoded"),
    }
}

#[test]
fn dirty_frame_decodes_payload_type() {
    let mut f = empty_fields();
    f.payload_type = Some(3);
    f.payload_id = Some(s("r9"));
    match decode_frame(27, f) {
        Ok(Some(PuppetEvent::Dirty(p))) => {
            assert_eq!(p.payload_type, PayloadType::Room);
            assert_eq!(p.payload_id, "r9");
        }
        _ => panic!("dirty frame not decoded"),
    }
    let mut logout = empty_fields();
    logout.contact_id = Some(s("u1"));
    assert_eq!(decode_frame(26, logout).err(), Some(DecodeError::MissingField(26)));
}

#[test]
fn subscribe_overwrites_and_unsubscribe_is_idempotent() {
    let mut registry: SubscriberRegistry<u32> = SubscriberRegistry::new();
    registry.subscribe(EventKind::Message, s("a"), 1);
    registry.subscribe(EventKind::Message, s("b"), 2);
    registry.subscribe(EventKind::Login, s("a"), 3);
    registry.subscribe(EventKind::Message, s("a"), 4);
    let to = registry.subscribers_of(EventKind::Message);
    assert_eq!(to.len(), 2);
    assert_eq!(*registry.target_at(to[0]), 4);
    assert_eq!(registry.name_at(to[1]), "b");
    registry.unsubscribe(EventKind::Message, &s("a"));
    registry.unsubscribe(EventKind::Message, &s("a"));
    registry.apply_unsubscribe(&UnSubscribe { name: s("zzz"), event_kind: EventKind::Scan });
    let left = registry.subscribers_of(EventKind::Message);
    assert_eq!(left.len(), 1);
    assert_eq!(*registry.target_at(left[0]), 2);
    assert_eq!(registry.subscribers_of(EventKind::Login).len(), 1);
    registry.apply_subscribe(Subscribe { addr: 9, name: s("b"), event_kind: EventKind::Message });
    let again = registry.subscribers_of(EventKind::Message);
    assert_eq!(again.len(), 1);
    assert_eq!(*registry.target_at(again[0]), 9);
}

#[test]
fn handler_with_two_calls_runs_twice() {
    let mut handlers = ListenerRegistry::new(s("bot"));
    let first = handlers.register(EventKind::Scan, Some(2));
    let unlimited = handlers.register(EventKind::Scan, None);
    let other = handlers.register(EventKind::Dong, Some(1));
    assert_eq!((first, unlimited, other), (0, 1, 0));
    let mut runs_of_first = 0;
    let mut runs_of_unlimited = 0;
    for _ in 0..3 {
        for pos in handlers.fire(EventKind::Scan) {
            if pos == 0 {
                runs_of_first += 1;
            }
            if pos == 1 {
                runs_of_unlimited += 1;
            }
            assert_ne!(pos, 2);
        }
    }
    assert_eq!(runs_of_first, 2);
    assert_eq!(runs_of_unlimited, 3);
    assert_eq!(handlers.get_name(), "bot");
}

#[test]
fn login_sets_identity_before_handlers_run() {
    let mut inner = EventListenerInner { ctx: WechatyContext::new(), handlers: ListenerRegistry::new(s("bot")) };
    inner.handlers.register(EventKind::Login, None);
    assert!(!inner.ctx.is_logged_in());
    let to_run = inner.begin_dispatch(&PuppetEvent::Login(EventLoginPayload { contact_id: s("u1") }));
    assert_eq!(to_run, vec![0]);
    assert!(inner.ctx.is_logged_in());
    assert_eq!(inner.ctx.id(), Some(s("u1")));
    let after = inner.begin_dispatch(&PuppetEvent::Logout(EventLogoutPayload { contact_id: s("u1"), data: s("") }));
    assert!(after.is_empty());
    assert!(!inner.ctx.is_logged_in());
}

#[test]
fn leaving_a_room_forgets_it() {
    let mut ctx = WechatyContext::new();
    ctx.set_id(s("me"));
    ctx.cache.put(CacheKind::Room, s("r1"), EntityPayload::Room(room("r1")));
    ctx.cache.put(CacheKind::Room, s("r2"), EntityPayload::Room(room("r2")));
    for m in ["me", "u2"] {
        let k = room_member_cache_key(&s("r1"), &s(m));
        ctx.cache.put(
            CacheKind::RoomMember,
            k,
            EntityPayload::Room(room("r1")),
        );
    }
    let leave = EventRoomLeavePayload {
        removee_id_list: vec![s("me")],
        remover_id: s("owner"),
        room_id: s("r1"),
        timestamp: 1,
    };
    assert!(ctx.removes_self(&leave));
    let r = ctx.clean_up_left_room(&s("r1"), Ok(vec![s("me"), s("u2")]));
    assert!(r.is_ok());
    assert!(ctx.cache.lookup(CacheKind::Room, &s("r1")).is_none());
    assert!(ctx.cache.lookup(CacheKind::Room, &s("r2")).is_some());
    assert!(ctx.cache.cached_ids(CacheKind::RoomMember).is_empty());

    let other = EventRoomLeavePayload { removee_id_list: vec![s("u9")], remover_id: s("me"), room_id: s("r2"), timestamp: 2 };
    assert!(!ctx.removes_self(&other));
}

#[test]
fn identity_bound_operations_need_login() {
    let mut ctx = WechatyContext::new();
    assert!(matches!(ctx.require_login(), Err(WechatyError::NotLoggedIn)));
    assert!(matches!(ctx.check_room_create(5), Err(WechatyError::NotLoggedIn)));
    ctx.set_id(s("me"));
    assert!(ctx.require_login().is_ok());
    match ctx.check_room_create(1) {
        Err(WechatyError::InvalidOperation(m)) => assert_eq!(m, "Need at least 2 contacts to create a room"),
        _ => panic!("one contact accepted"),
    }
    assert!(ctx.check_room_create(2).is_ok());
    let nothing = FriendshipSearchQueryFilter { phone: None, weixin: None };
    match ctx.check_friendship_search(&nothing) {
        Err(WechatyError::InvalidOperation(m)) => assert_eq!(m, "Must specify either phone or weixin"),
        _ => panic!("empty friendship search accepted"),
    }
    ctx.clear_id();
    assert!(matches!(ctx.check_friendship_search(&nothing), Err(WechatyError::NotLoggedIn)));
}

#[test]
fn hydration_targets_of_room_join() {
    let mut f = empty_fields();
    f.room_id = Some(s("r1"));
    f.inviter_id = Some(s("u1"));
    f.invitee_id_list = Some(vec![s("u2"), s("u3")]);
    f.timestamp = Some(1);
    let ev = decode_frame(19, f).ok().unwrap().unwrap();
    let t: Vec<(CacheKind, String)> = hydration_targets(&ev).into_iter().map(|h| (h.kind, h.id)).collect();
    assert_eq!(
        t,
        vec![
            (CacheKind::Room, s("r1")),
            (CacheKind::Contact, s("u1")),
            (CacheKind::Contact, s("u2")),
            (CacheKind::Contact, s("u3")),
        ]
    );
    let ping = PuppetEvent::Login(EventLoginPayload { contact_id: s("u5") });
    let l: Vec<(CacheKind, String)> = hydration_targets(&ping).into_iter().map(|h| (h.kind, h.id)).collect();
    assert_eq!(l, vec![(CacheKind::Contact, s("u5"))]);
}

#[test]
fn message_helpers() {
    let mut ctx = WechatyContext::new();
    ctx.set_id(s("me"));
    let in_room = Message { id: s("m"), payload: Some(message("r1", "u1", vec![s("me")])) };
    assert_eq!(in_room.conversation_id(), Some(s("r1")));
    assert!(in_room.is_in_room());
    assert!(in_room.mentioned_self(&ctx));
    assert_eq!(in_room.from(), Some(s("u1")));
    assert_eq!(in_room.to(), Some(s("bot")));
    assert_eq!(in_room.room(), Some(s("r1")));
    assert_eq!(in_room.text(), Some(s("hi")));
    assert_eq!(in_room.message_type(), Some(MessageType::Text));
    assert_eq!(in_room.timestamp(), Some(100));
    assert_eq!(in_room.age(160), 60);
    assert_eq!(in_room.age(50), 0);
    let direct = Message { id: s("m"), payload: Some(message("", "me", vec![])) };
    assert_eq!(direct.conversation_id(), Some(s("me")));
    assert!(!direct.is_in_room());
    assert_eq!(direct.room(), None);
    assert!(direct.is_self(&ctx));
    assert!(!in_room.is_self(&ctx));
    ctx.clear_id();
    assert!(!direct.is_self(&ctx));
    assert!(!in_room.mentioned_self(&ctx));
    let unloaded = Message { id: s("m"), payload: None };
    assert_eq!(unloaded.conversation_id(), None);
    assert_eq!(unloaded.age(160), 0);
    assert!(!unloaded.is_ready());
    assert_eq!(Message { id: s("m"), payload: Some(message("", "", vec![])) }.conversation_id(), None);
    let related: Vec<(CacheKind, String)> =
        message_related(&message("r1", "u1", vec![])).into_iter().map(|h| (h.kind, h.id)).collect();
    assert_eq!(related, vec![(CacheKind::Contact, s("u1")), (CacheKind::Contact, s("bot")), (CacheKind::Room, s("r1"))]);
}

#[test]
fn forward_decisions() {
    assert_eq!(forward_action(MessageType::Image).ok(), Some(ForwardAction::SendFile));
    assert_eq!(forward_action(MessageType::Text).ok(), Some(ForwardAction::SendText));
    assert_eq!(forward_action(MessageType::Url).ok(), Some(ForwardAction::SendUrl));
    assert!(matches!(forward_action(MessageType::Unknown), Err(PuppetError::UnknownMessageType)));
    match forward_action(MessageType::Location) {
        Err(PuppetError::Unsupported(m)) => assert_eq!(m, "sending Location messages"),
        _ => panic!("location forwarded"),
    }
}

#[test]
fn error_texts() {
    assert_eq!(PuppetError::Network(s("timeout")).to_string(), "Network failure, reason: timeout");
    assert_eq!(PuppetError::InvalidToken.to_string(), "Invalid token");
    assert_eq!(
        WechatyError::Puppet(PuppetError::UnknownPayloadType).to_string(),
        "Puppet error: Unknown payload type"
    );
    assert_eq!(WechatyError::NotLoggedIn.to_string(), "User is not logged in");
    assert_eq!(WechatyError::Maybe(s("x")).to_string(), "An error may have occurred: x");
    assert!(matches!(WechatyError::from(PuppetError::InvalidToken), WechatyError::Puppet(PuppetError::InvalidToken)));
    assert_eq!(FileBox::from(s("file")).to_string(), "");
}

#[test]
fn wire_codes_round_trip() {
    assert_eq!(FriendshipSceneType::from_i32(30), Some(FriendshipSceneType::QRCode));
    assert_eq!(FriendshipSceneType::QRCode.to_i32(), 30);
    assert_eq!(FriendshipSceneType::from_i32(4), None);
    assert_eq!(WechatMessageType::from_i32(10002), Some(WechatMessageType::Recalled));
    assert_eq!(MessageType::from_i32(15), Some(MessageType::Video));
    assert_eq!(ScanStatus::from_i32(-1), None);
}

#[test]
fn endpoint_and_friendship_routing() {
    let direct = PuppetOptions { endpoint: Some(s("http://e")), timeout: None, token: Some(s("t")) };
    assert!(matches!(endpoint_source(&direct), Ok(EndpointSource::Direct(ref e)) if e == "http://e"));
    let token = PuppetOptions { endpoint: None, timeout: None, token: Some(s("t")) };
    assert!(matches!(endpoint_source(&token), Ok(EndpointSource::Discover(ref t)) if t == "t"));
    let neither = PuppetOptions { endpoint: None, timeout: None, token: None };
    assert!(matches!(endpoint_source(&neither), Err(PuppetError::InvalidToken)));
    let both = FriendshipSearchQueryFilter { phone: Some(s("123")), weixin: Some(s("w")) };
    assert!(matches!(friendship_search_route(&both), FriendshipSearchRoute::ByPhone(ref p) if p == "123"));
    let weixin = FriendshipSearchQueryFilter { phone: None, weixin: Some(s("w")) };
    assert!(matches!(friendship_search_route(&weixin), FriendshipSearchRoute::ByWeixin(ref w) if w == "w"));
}
