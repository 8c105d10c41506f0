use wechaty::cache::{room_member_cache_key, CacheKind, DirtyStep, EntityCache, PayloadStore};
use wechaty::error::PuppetError;
use wechaty::lru_store::EntityPayload;
use wechaty::query::{
    contact_search, contact_search_by_string, message_search, regex_accepts_text, room_member_search,
    room_member_search_by_string, room_search, union_ids, ContactQueryFilter, MessageQueryFilter,
    RoomMemberQueryFilter, RoomQueryFilter,
};
use wechaty::schemas::{
    ContactGender, ContactPayload, ContactType, MessagePayload, MessageType, PayloadType, RoomMemberPayload,
    RoomPayload,
};

fn contact(id: &str, name: &str, alias: &str) -> ContactPayload {
    ContactPayload {
        id: id.to_string(),
        gender: ContactGender::Unknown,
        contact_type: ContactType::Individual,
        name: name.to_string(),
        avatar: String::new(),
        address: String::new(),
        alias: alias.to_string(),
        city: String::new(),
        friend: true,
        province: String::new(),
        signature: String::new(),
        star: false,
        weixin: String::new(),
        corporation: String::new(),
        title: String::new(),
        description: String::new(),
        coworker: false,
        phone: vec![],
    }
}

fn room(id: &str, topic: &str) -> RoomPayload {
    RoomPayload {
        id: id.to_string(),
        topic: topic.to_string(),
        avatar: String::new(),
        member_id_list: vec![],
        owner_id: String::new(),
        admin_id_list: vec![],
    }
}

fn member(id: &str, name: &str, room_alias: &str) -> RoomMemberPayload {
    RoomMemberPayload {
        id: id.to_string(),
        room_alias: room_alias.to_string(),
        inviter_id: String::new(),
        avatar: String::new(),
        name: name.to_string(),
    }
}

fn message(id: &str, text: &str, message_type: MessageType) -> MessagePayload {
    MessagePayload {
        id: id.to_string(),
        filename: String::new(),
        text: text.to_string(),
        timestamp: 0,
        message_type,
        from_id: "alice".to_string(),
        mention_id_list: vec![],
        room_id: String::new(),
        to_id: "bob".to_string(),
    }
}

fn contact_of(p: EntityPayload) -> ContactPayload {
    match p {
        EntityPayload::Contact(c) => c,
        _ => panic!("not a contact"),
    }
}

fn key(s: &str) -> String {
    s.to_string()
}

#[test]
fn second_read_is_served_from_cache() {
    let mut store = PayloadStore::new(10);
    let mut fetches = 0;
    for _ in 0..2 {
        match store.lookup(&key("c1")) {
            Some(p) => assert_eq!(contact_of(p).name, "Carol"),
            None => {
                fetches += 1;
                let r = store.finish_fetch(key("c1"), Ok(EntityPayload::Contact(contact("c1", "Carol", ""))));
                assert_eq!(contact_of(r.ok().unwrap()).name, "Carol");
            }
        }
    }
    assert_eq!(fetches, 1);
}

#[test]
fn failed_fetch_is_not_cached() {
    let mut store = PayloadStore::new(10);
    let r = store.finish_fetch(key("c1"), Err(PuppetError::Network("down".to_string())));
    assert!(matches!(r, Err(PuppetError::Network(ref m)) if m == "down"));
    assert!(store.lookup(&key("c1")).is_none());
    assert!(store.cached_ids().is_empty());
}

#[test]
fn invalidate_forces_exactly_one_fetch() {
    let mut store = PayloadStore::new(10);
    store.put(key("c1"), EntityPayload::Contact(contact("c1", "Old", "")));
    store.invalidate(&key("c1"));
    let mut fetches = 0;
    for _ in 0..3 {
        if store.lookup(&key("c1")).is_none() {
            fetches += 1;
            let _ = store.finish_fetch(key("c1"), Ok(EntityPayload::Contact(contact("c1", "New", ""))));
        }
    }
    assert_eq!(fetches, 1);
    assert_eq!(contact_of(store.lookup(&key("c1")).unwrap()).name, "New");
    store.invalidate(&key("absent"));
    assert_eq!(store.cached_ids(), vec![key("c1")]);
}

#[test]
fn full_store_evicts_least_recently_used() {
    let mut store = PayloadStore::new(3);
    for id in ["a", "b", "c"] {
        store.put(key(id), EntityPayload::Contact(contact(id, id, "")));
    }
    store.put(key("d"), EntityPayload::Contact(contact("d", "d", "")));
    assert_eq!(store.cached_ids(), vec![key("d"), key("c"), key("b")]);
    assert!(store.lookup(&key("a")).is_none());
}

#[test]
fn read_protects_from_eviction() {
    let mut store = PayloadStore::new(3);
    for id in ["a", "b", "c"] {
        store.put(key(id), EntityPayload::Contact(contact(id, id, "")));
    }
    assert!(store.lookup(&key("a")).is_some());
    store.put(key("d"), EntityPayload::Contact(contact("d", "d", "")));
    assert!(store.lookup(&key("a")).is_some());
    assert!(store.lookup(&key("b")).is_none());
    assert!(store.lookup(&key("c")).is_some());
}

#[test]
fn put_overwrites_existing_entry() {
    let mut store = PayloadStore::new(2);
    store.put(key("a"), EntityPayload::Contact(contact("a", "first", "")));
    store.put(key("b"), EntityPayload::Contact(contact("b", "b", "")));
    store.put(key("a"), EntityPayload::Contact(contact("a", "second", "")));
    assert_eq!(store.cached_ids(), vec![key("a"), key("b")]);
    assert_eq!(contact_of(store.lookup(&key("a")).unwrap()).name, "second");
}

#[test]
fn entity_cache_keeps_kinds_apart() {
    let mut cache = EntityCache::new();
    cache.put(CacheKind::Contact, key("x"), EntityPayload::Contact(contact("x", "X", "")));
    assert!(cache.lookup(CacheKind::Room, &key("x")).is_none());
    assert!(cache.lookup(CacheKind::Contact, &key("x")).is_some());
    assert_eq!(cache.cached_ids(CacheKind::Contact), vec![key("x")]);
    assert!(cache.cached_ids(CacheKind::Message).is_empty());
}

#[test]
fn dirty_signals_by_payload_type() {
    let mut cache = EntityCache::new();
    cache.put(CacheKind::Room, key("r1"), EntityPayload::Room(room("r1", "t")));
    cache.put(CacheKind::Contact, key("r1"), EntityPayload::Contact(contact("r1", "n", "")));
    assert!(matches!(cache.dirty_payload(PayloadType::Room, &key("r1")), DirtyStep::Done(Ok(()))));
    assert!(cache.lookup(CacheKind::Room, &key("r1")).is_none());
    assert!(cache.lookup(CacheKind::Contact, &key("r1")).is_some());
    assert!(matches!(
        cache.dirty_payload(PayloadType::Unknown, &key("r1")),
        DirtyStep::Done(Err(PuppetError::UnknownPayloadType))
    ));
    assert!(matches!(cache.dirty_payload(PayloadType::RoomMember, &key("r1")), DirtyStep::NeedRoomMembers));
}

#[test]
fn room_member_key_and_dirty_members() {
    assert_eq!(room_member_cache_key(&key("r1"), &key("u2")), "u2@@@r1");
    let mut cache = EntityCache::new();
    for m in ["u1", "u2"] {
        let k = room_member_cache_key(&key("r1"), &key(m));
        cache.put(CacheKind::RoomMember, k, EntityPayload::RoomMember(member(m, m, "")));
    }
    let other = room_member_cache_key(&key("r2"), &key("u1"));
    cache.put(CacheKind::RoomMember, other.clone(), EntityPayload::RoomMember(member("u1", "u1", "")));

    let failed = cache.dirty_room_members(&key("r1"), Err(PuppetError::Network("x".to_string())));
    assert!(failed.is_err());
    assert_eq!(cache.cached_ids(CacheKind::RoomMember).len(), 3);

    let ok = cache.dirty_room_members(&key("r1"), Ok(vec![key("u1"), key("u2")]));
    assert!(ok.is_ok());
    assert_eq!(cache.cached_ids(CacheKind::RoomMember), vec![other]);
}

#[test]
fn regex_constraint_uses_the_pattern() {
    assert!(regex_accepts_text(&key("^B"), &key("Bob")));
    assert!(!regex_accepts_text(&key("^B"), &key("Alice")));
    assert!(regex_accepts_text(&key("li"), &key("Alice")));
    assert!(!regex_accepts_text(&key("("), &key("(")));
}

#[test]
fn name_and_name_regex_both_apply() {
    let people = vec![contact("1", "Bob", ""), contact("2", "Bea", ""), contact("3", "Carl", "")];
    let mut filter = ContactQueryFilter::default();
    filter.name = Some(key("A"));
    filter.name_regex = Some(key("^B"));
    assert!(contact_search(&filter, &people).is_empty());

    let mut only_regex = ContactQueryFilter::default();
    only_regex.name_regex = Some(key("^B"));
    assert_eq!(contact_search(&only_regex, &people), vec![key("1"), key("2")]);

    let mut both = ContactQueryFilter::default();
    both.name = Some(key("Bea"));
    both.name_regex = Some(key("^B"));
    assert_eq!(contact_search(&both, &people), vec![key("2")]);
}

#[test]
fn empty_filter_matches_everything_in_order() {
    let people = vec![contact("z", "Z", ""), contact("a", "A", "")];
    assert_eq!(contact_search(&ContactQueryFilter::default(), &people), vec![key("z"), key("a")]);
    assert!(contact_search(&ContactQueryFilter::default(), &vec![]).is_empty());
}

#[test]
fn search_by_string_unions_id_and_alias_matches() {
    let people = vec![contact("bob", "Robert", ""), contact("y", "Yolanda", "bob"), contact("z", "Zed", "")];
    let mut found = contact_search_by_string(&key("bob"), &people);
    found.sort();
    assert_eq!(found, vec![key("bob"), key("y")]);

    let same = vec![contact("bob", "Robert", "bob")];
    assert_eq!(contact_search_by_string(&key("bob"), &same), vec![key("bob")]);
}

#[test]
fn union_has_no_duplicates() {
    let a = vec![key("x"), key("y")];
    let b = vec![key("y"), key("z"), key("x")];
    assert_eq!(union_ids(&a, &b), vec![key("x"), key("y"), key("z")]);
    assert!(union_ids(&vec![], &vec![]).is_empty());
}

#[test]
fn message_filter_by_type_and_text() {
    let msgs = vec![
        message("m1", "hello world", MessageType::Text),
        message("m2", "hello", MessageType::Image),
        message("m3", "bye", MessageType::Text),
    ];
    let mut f = MessageQueryFilter::default();
    f.message_type = Some(MessageType::Text);
    assert_eq!(message_search(&f, &msgs), vec![key("m1"), key("m3")]);
    f.text_regex = Some(key("^hello"));
    assert_eq!(message_search(&f, &msgs), vec![key("m1")]);
    let mut g = MessageQueryFilter::default();
    g.from_id = Some(key("nobody"));
    assert!(message_search(&g, &msgs).is_empty());
}

#[test]
fn room_filter_by_topic() {
    let rooms = vec![room("r1", "Rust club"), room("r2", "Go club"), room("r3", "Rust club")];
    let f = RoomQueryFilter { id: None, topic: Some(key("Rust club")), topic_regex: None };
    assert_eq!(room_search(&f, &rooms), vec![key("r1"), key("r3")]);
    let g = RoomQueryFilter { id: Some(key("r3")), topic: None, topic_regex: Some(key("club$")) };
    assert_eq!(room_search(&g, &rooms), vec![key("r3")]);
}

#[test]
fn room_member_search_by_name_or_alias() {
    let members = vec![member("u1", "amy", ""), member("u2", "ben", "amy"), member("u3", "cat", "kit")];
    let f = RoomMemberQueryFilter { name: None, room_alias: None, name_regex: Some(key("^c")), room_alias_regex: None };
    assert_eq!(room_member_search(&f, &members), vec![key("u3")]);
    let mut found = room_member_search_by_string(&key("amy"), &members);
    found.sort();
    assert_eq!(found, vec![key("u1"), key("u2")]);
}
