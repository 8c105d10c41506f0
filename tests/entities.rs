use wechaty::context::WechatyContext;
use wechaty::entity::{Contact, Friendship, Room};
use wechaty::error::WechatyError;
use wechaty::schemas::{
    ContactGender, ContactPayload, ContactType, FriendshipPayload, FriendshipSceneType, FriendshipType, RoomPayload,
};

fn contact_payload(id: &str, name: &str, alias: &str) -> ContactPayload {
    ContactPayload {
        id: id.to_string(),
        gender: ContactGender::Female,
        contact_type: ContactType::Individual,
        name: name.to_string(),
        avatar: String::new(),
        address: String::new(),
        alias: alias.to_string(),
        city: String::new(),
        friend: false,
        province: String::new(),
        signature: String::new(),
        star: false,
        weixin: String::new(),
        corporation: String::new(),
        title: String::new(),
        description: String::new(),
        coworker: false,
        phone: vec![],
    }
}

fn friendship(kind: FriendshipType, contact_id: &str) -> Friendship {
    Friendship {
        id: "f1".to_string(),
        payload: Some(FriendshipPayload {
            id: "f1".to_string(),
            contact_id: contact_id.to_string(),
            hello: "hi".to_string(),
            timestamp: 0,
            scene: FriendshipSceneType::Phone,
            stranger: String::new(),
            ticket: String::new(),
            friendship_type: kind,
        }),
    }
}

#[test]
fn contact_identity_prefers_alias_then_name_then_id() {
    let c = Contact { id: "u1".to_string(), payload: Some(contact_payload("u1", "Ann", "Annie")) };
    assert_eq!(c.identity(), "Annie");
    let c = Contact { id: "u1".to_string(), payload: Some(contact_payload("u1", "Ann", "")) };
    assert_eq!(c.identity(), "Ann");
    assert_eq!(c.name(), Some("Ann".to_string()));
    let c = Contact { id: "u1".to_string(), payload: Some(contact_payload("u1", "", "")) };
    assert_eq!(c.identity(), "u1");
    let c = Contact { id: "u1".to_string(), payload: None };
    assert_eq!(c.identity(), "loading...");
    assert!(!c.is_ready());
    assert_eq!(c.alias(), None);
}

#[test]
fn room_identity_prefers_topic() {
    let p = RoomPayload {
        id: "r1".to_string(),
        topic: "Book club".to_string(),
        avatar: String::new(),
        member_id_list: vec![],
        owner_id: String::new(),
        admin_id_list: vec![],
    };
    assert_eq!(Room { id: "r1".to_string(), payload: Some(p.clone()) }.identity(), "Book club");
    let mut untitled = p;
    untitled.topic = String::new();
    assert_eq!(Room { id: "r1".to_string(), payload: Some(untitled) }.identity(), "r1");
    assert_eq!(Room { id: "r1".to_string(), payload: None }.identity(), "loading...");
}

#[test]
fn own_profile_needs_own_account() {
    let mut ctx = WechatyContext::new();
    let me = Contact { id: "me".to_string(), payload: None };
    assert!(matches!(me.require_self(&ctx), Err(WechatyError::NotLoggedIn)));
    ctx.set_id("me".to_string());
    assert!(me.is_self(&ctx));
    assert!(me.require_self(&ctx).is_ok());
    let other = Contact { id: "you".to_string(), payload: None };
    assert!(!other.is_self(&ctx));
}

#[test]
fn only_received_requests_are_accepted() {
    let unloaded = Friendship { id: "f1".to_string(), payload: None };
    assert!(matches!(unloaded.check_accept(), Err(WechatyError::NoPayload)));
    assert!(friendship(FriendshipType::Receive, "u1").check_accept().is_ok());
    match friendship(FriendshipType::Confirm, "u1").check_accept() {
        Err(WechatyError::InvalidOperation(m)) => assert_eq!(m, "Can only accept a friendship of the Receive type"),
        _ => panic!("confirm request accepted"),
    }
    assert_eq!(friendship(FriendshipType::Receive, "u1").contact_id(), Some("u1".to_string()));
    assert_eq!(friendship(FriendshipType::Receive, "").contact_id(), None);
    assert_eq!(friendship(FriendshipType::Verify, "").friendship_type(), Some(FriendshipType::Verify));
}

#[test]
fn accept_outcome_reports_uncertainty() {
    let loaded = Contact { id: "u1".to_string(), payload: Some(contact_payload("u1", "Ann", "")) };
    assert!(Friendship::accept_outcome(&loaded).is_ok());
    let missing = Contact { id: "u1".to_string(), payload: None };
    match Friendship::accept_outcome(&missing) {
        Err(WechatyError::Maybe(m)) => assert_eq!(m, "Failed to accept the friendship, contact: loading..."),
        _ => panic!("unloaded contact reported as accepted"),
    }
}
