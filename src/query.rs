use vstd::prelude::*;

use crate::schemas::{ContactPayload, MessagePayload, MessageType, RoomMemberPayload, RoomPayload};

verus! {

/// Whether `pattern` compiles as a regular expression.
pub uninterp spec fn regex_compiles(pattern: Seq<char>) -> bool;

/// Whether the compiled `pattern` matches somewhere in `text`.
pub uninterp spec fn regex_finds(pattern: Seq<char>, text: Seq<char>) -> bool;

/// Relies on regex::Regex::new, which tells whether the pattern compiles, and on
/// Regex::is_match, which tells whether the compiled pattern matches somewhere in
/// the text.
#[verifier::external_body]
fn regex_search(pattern: &str, text: &str) -> (r: Option<bool>)
    ensures
        r == (if regex_compiles(pattern@) {
            Some(regex_finds(pattern@, text@))
        } else {
            None
        }),
{
    match regex::Regex::new(pattern) {
        Ok(re) => Some(re.is_match(text)),
        Err(_) => None,
    }
}

/// A regex constraint holds: the pattern compiles and matches the text.
pub open spec fn regex_accepts(pattern: Seq<char>, text: Seq<char>) -> bool {
    regex_compiles(pattern) && regex_finds(pattern, text)
}

/// Whether `text` satisfies the regex constraint `pattern`; a pattern that does
/// not compile is satisfied by no text.
pub fn regex_accepts_text(pattern: &String, text: &String) -> (r: bool)
    ensures
        r == regex_accepts(pattern@, text@),
{
    match regex_search(pattern.as_str(), text.as_str()) {
        Some(found) => found,
        None => false,
    }
}

/// An exact-match constraint: unset, or equal to the value.
pub open spec fn exact(c: Option<String>, v: String) -> bool {
    c matches Some(x) ==> x@ == v@
}

/// Checks an exact-match constraint.
pub fn exact_holds(c: &Option<String>, v: &String) -> (r: bool)
    ensures
        r == exact(*c, *v),
{
    match c {
        Some(x) => x.eq(v),
        None => true,
    }
}

/// A regex constraint on `v`, given whether the pattern (if set) accepts `v`.
pub open spec fn regex_ok(c: Option<String>, accepted: bool) -> bool {
    c is Some ==> accepted
}

/// Whether the regex constraint `c` (if set) accepts `v`.
pub open spec fn regex_constraint(c: Option<String>, v: String) -> bool {
    c matches Some(p) ==> regex_accepts(p@, v@)
}

/// Checks a regex constraint.
pub fn regex_holds(c: &Option<String>, v: &String) -> (r: bool)
    ensures
        r == regex_constraint(*c, *v),
{
    match c {
        Some(p) => regex_accepts_text(p, v),
        None => true,
    }
}

/// What a contact search asks for. Every constraint that is set must hold;
/// regex constraints hold their pattern.
#[derive(Clone, Debug)]
pub struct ContactQueryFilter {
    pub alias: Option<String>,
    pub alias_regex: Option<String>,
    pub id: Option<String>,
    pub name: Option<String>,
    pub name_regex: Option<String>,
    pub weixin: Option<String>,
}

impl Default for ContactQueryFilter {
    fn default() -> (r: ContactQueryFilter)
        ensures
            r.alias is None && r.alias_regex is None && r.id is None && r.name is None
                && r.name_regex is None && r.weixin is None,
    {
        ContactQueryFilter { alias: None, alias_regex: None, id: None, name: None, name_regex: None, weixin: None }
    }
}

/// A contact satisfies a filter, given the outcome of its regex constraints.
pub open spec fn contact_fields_match(f: ContactQueryFilter, p: ContactPayload, name_re: bool, alias_re: bool) -> bool {
    &&& exact(f.id, p.id)
    &&& exact(f.name, p.name)
    &&& exact(f.alias, p.alias)
    &&& exact(f.weixin, p.weixin)
    &&& regex_ok(f.name_regex, name_re)
    &&& regex_ok(f.alias_regex, alias_re)
}

/// A contact satisfies a filter: all of its set constraints hold.
pub open spec fn contact_matches(f: ContactQueryFilter, p: ContactPayload) -> bool {
    contact_fields_match(
        f,
        p,
        regex_constraint(f.name_regex, p.name),
        regex_constraint(f.alias_regex, p.alias),
    )
}

impl ContactQueryFilter {
    /// Whether `p` satisfies this filter, given whether the name and alias
    /// patterns (where set) accept the contact's name and alias.
    pub fn accepts_with(&self, p: &ContactPayload, name_re: bool, alias_re: bool) -> (r: bool)
        ensures
            r == contact_fields_match(*self, *p, name_re, alias_re),
    {
        exact_holds(&self.id, &p.id) && exact_holds(&self.name, &p.name) && exact_holds(&self.alias, &p.alias)
            && exact_holds(&self.weixin, &p.weixin) && (self.name_regex.is_none() || name_re) && (
        self.alias_regex.is_none() || alias_re)
    }

    /// Whether `p` satisfies this filter.
    pub fn accepts(&self, p: &ContactPayload) -> (r: bool)
        ensures
            r == contact_matches(*self, *p),
    {
        let name_re = regex_holds(&self.name_regex, &p.name);
        let alias_re = regex_holds(&self.alias_regex, &p.alias);
        self.accepts_with(p, name_re, alias_re)
    }
}

/// The ids of the payloads that satisfy the filter, in order.
pub open spec fn contact_ids_matching(f: ContactQueryFilter, ps: Seq<ContactPayload>) -> Seq<Seq<char>>
    decreases ps.len(),
{
    if ps.len() == 0 {
        Seq::empty()
    } else {
        let rest = contact_ids_matching(f, ps.drop_last());
        if contact_matches(f, ps.last()) {
            rest.push(ps.last().id@)
        } else {
            rest
        }
    }
}

/// The views of a list of strings.
pub open spec fn views(v: Seq<String>) -> Seq<Seq<char>> {
    v.map_values(|s: String| s@)
}

/// Keeps the ids of the loaded contacts that satisfy `filter`, in the order given.
pub fn contact_search(filter: &ContactQueryFilter, payloads: &Vec<ContactPayload>) -> (r: Vec<String>)
    ensures
        views(r@) == contact_ids_matching(*filter, payloads@),
{
    let mut out: Vec<String> = Vec::new();
    let mut i: usize = 0;
    while i < payloads.len()
        invariant
            0 <= i <= payloads@.len(),
            views(out@) == contact_ids_matching(*filter, payloads@.subrange(0, i as int)),
        decreases payloads@.len() - i,
    {
        let ghost prefix = payloads@.subrange(0, i as int);
        let ghost next = payloads@.subrange(0, i + 1);
        assert(next.drop_last() == prefix);
        assert(next.last() == payloads@[i as int]);
        if filter.accepts(&payloads[i]) {
            out.push(payloads[i].id.clone());
            assert(views(out@) =~= views(out@.drop_last()).push(payloads@[i as int].id@));
        }
        i = i + 1;
    }
    assert(payloads@.subrange(0, payloads@.len() as int) == payloads@);
    out
}

/// No value occurs twice.
pub open spec fn no_duplicates(s: Seq<Seq<char>>) -> bool {
    forall|i: int, j: int| 0 <= i < j < s.len() ==> #[trigger] s[i] != #[trigger] s[j]
}

/// Whether `s` occurs in the list.
pub fn list_contains(v: &Vec<String>, s: &String) -> (r: bool)
    ensures
        r == views(v@).contains(s@),
{
    let mut i: usize = 0;
    while i < v.len()
        invariant
            0 <= i <= v@.len(),
            forall|j: int| 0 <= j < i ==> #[trigger] v@[j]@ != s@,
        decreases v@.len() - i,
    {
        if v[i].eq(s) {
            assert(views(v@)[i as int] == s@);
            return true;
        }
        i = i + 1;
    }
    assert(!views(v@).contains(s@)) by {
        if views(v@).contains(s@) {
            let j = choose|j: int| 0 <= j < views(v@).len() && views(v@)[j] == s@;
            assert(v@[j]@ == s@);
        }
    }
    false
}

/// Appends to `out` the values of `src` it does not hold yet, in order.
fn append_new(out: &mut Vec<String>, src: &Vec<String>)
    requires
        no_duplicates(views(old(out)@)),
    ensures
        no_duplicates(views(final(out)@)),
        forall|s: Seq<char>| #[trigger]
            views(final(out)@).contains(s) <==> (views(old(out)@).contains(s) || views(src@).contains(s)),
{
    let ghost start = views(out@);
    let mut i: usize = 0;
    while i < src.len()
        invariant
            0 <= i <= src@.len(),
            no_duplicates(views(out@)),
            forall|s: Seq<char>| #[trigger]
                views(out@).contains(s) <==> (start.contains(s) || views(src@.subrange(0, i as int)).contains(s)),
        decreases src@.len() - i,
    {
        let ghost before = views(out@);
        let ghost seen = views(src@.subrange(0, i as int));
        let ghost seen_next = views(src@.subrange(0, i + 1));
        assert(seen_next =~= seen.push(src@[i as int]@));
        assert forall|t: Seq<char>| #[trigger] before.contains(t) <==> (start.contains(t) || seen.contains(t)) by {}
        let present = list_contains(out, &src[i]);
        if !present {
            out.push(src[i].clone());
            assert(views(out@) =~= before.push(src@[i as int]@));
        }
        assert forall|s: Seq<char>| #[trigger]
            views(out@).contains(s) <==> (start.contains(s) || seen_next.contains(s)) by {
            assert(before.contains(s) <==> (start.contains(s) || seen.contains(s)));
            if seen_next.contains(s) && !seen.contains(s) {
                let j = choose|j: int| 0 <= j < seen_next.len() && seen_next[j] == s;
                assert(j == i);
                assert(s == src@[i as int]@);
                if !present {
                    assert(views(out@)[before.len() as int] == s);
                }
            }
            if seen.contains(s) {
                let j = choose|j: int| 0 <= j < seen.len() && seen[j] == s;
                assert(seen_next[j] == s);
            }
            if views(out@).contains(s) && !before.contains(s) {
                let j = choose|j: int| 0 <= j < views(out@).len() && views(out@)[j] == s;
                assert(j == before.len());
                assert(s == src@[i as int]@);
                assert(seen_next[i as int] == s);
            }
            if before.contains(s) {
                let j = choose|j: int| 0 <= j < before.len() && before[j] == s;
                assert(views(out@)[j] == s);
            }
        }
        assert(no_duplicates(views(out@))) by {
            if !present {
                assert forall|a: int, b: int| 0 <= a < b < views(out@).len() implies #[trigger] views(out@)[a]
                    != #[trigger] views(out@)[b] by {
                    if b == before.len() {
                        assert(views(out@)[a] == before[a]);
                    }
                }
            }
        }
        i = i + 1;
    }
    assert(src@.subrange(0, src@.len() as int) == src@);
}

/// The values of `a` and of `b`, each once: their set union.
pub fn union_ids(a: &Vec<String>, b: &Vec<String>) -> (r: Vec<String>)
    ensures
        no_duplicates(views(r@)),
        forall|s: Seq<char>| #[trigger] views(r@).contains(s) <==> (views(a@).contains(s) || views(b@).contains(s)),
{
    let mut out: Vec<String> = Vec::new();
    assert(views(out@) =~= Seq::<Seq<char>>::empty());
    append_new(&mut out, a);
    append_new(&mut out, b);
    out
}

/// An id is among the matching ids exactly when some payload with that id matches.
pub proof fn lemma_contact_ids_member(f: ContactQueryFilter, ps: Seq<ContactPayload>, s: Seq<char>)
    ensures
        contact_ids_matching(f, ps).contains(s) <==> exists|i: int|
            0 <= i < ps.len() && #[trigger] contact_matches(f, ps[i]) && ps[i].id@ == s,
    decreases ps.len(),
{
    if ps.len() > 0 {
        let init = ps.drop_last();
        lemma_contact_ids_member(f, init, s);
        let rest = contact_ids_matching(f, init);
        if contact_ids_matching(f, ps).contains(s) {
            if rest.contains(s) {
                let i = choose|i: int| 0 <= i < init.len() && #[trigger] contact_matches(f, init[i]) && init[i].id@ == s;
                assert(ps[i] == init[i]);
            } else {
                let j = choose|j: int| 0 <= j < contact_ids_matching(f, ps).len() && contact_ids_matching(f, ps)[j] == s;
                assert(contact_matches(f, ps.last()));
                assert(ps[ps.len() - 1] == ps.last());
            }
        }
        if exists|i: int| 0 <= i < ps.len() && #[trigger] contact_matches(f, ps[i]) && ps[i].id@ == s {
            let i = choose|i: int| 0 <= i < ps.len() && #[trigger] contact_matches(f, ps[i]) && ps[i].id@ == s;
            if i < ps.len() - 1 {
                assert(init[i] == ps[i]);
                assert(rest.contains(s));
                if contact_matches(f, ps.last()) {
                    let k = choose|k: int| 0 <= k < rest.len() && rest[k] == s;
                    assert(contact_ids_matching(f, ps)[k] == s);
                }
            } else {
                assert(ps[i] == ps.last());
                let full = contact_ids_matching(f, ps);
                assert(full[full.len() - 1] == s);
            }
        }
    }
}

/// A contact's id or alias is `q`.
pub open spec fn contact_named(p: ContactPayload, q: Seq<char>) -> bool {
    p.id@ == q || p.alias@ == q
}

/// Searches the loaded contacts by a string: the union, without duplicates, of
/// the ids of contacts whose id is `query` and of contacts whose alias is `query`.
pub fn contact_search_by_string(query: &String, payloads: &Vec<ContactPayload>) -> (r: Vec<String>)
    ensures
        no_duplicates(views(r@)),
        forall|s: Seq<char>| #[trigger] views(r@).contains(s) <==> exists|i: int|
            0 <= i < payloads@.len() && #[trigger] contact_named(payloads@[i], query@) && payloads@[i].id@ == s,
{
    let by_id_filter = ContactQueryFilter {
        alias: None,
        alias_regex: None,
        id: Some(query.clone()),
        name: None,
        name_regex: None,
        weixin: None,
    };
    let by_alias_filter = ContactQueryFilter {
        alias: Some(query.clone()),
        alias_regex: None,
        id: None,
        name: None,
        name_regex: None,
        weixin: None,
    };
    let by_id = contact_search(&by_id_filter, payloads);
    let by_alias = contact_search(&by_alias_filter, payloads);
    let r = union_ids(&by_id, &by_alias);
    assert forall|s: Seq<char>| #[trigger] views(r@).contains(s) <==> exists|i: int|
        0 <= i < payloads@.len() && #[trigger] contact_named(payloads@[i], query@) && payloads@[i].id@ == s by {
        lemma_contact_ids_member(by_id_filter, payloads@, s);
        lemma_contact_ids_member(by_alias_filter, payloads@, s);
        if views(by_id@).contains(s) {
            let i = choose|i: int|
                0 <= i < payloads@.len() && #[trigger] contact_matches(by_id_filter, payloads@[i])
                    && payloads@[i].id@ == s;
            assert(contact_named(payloads@[i], query@));
        }
        if views(by_alias@).contains(s) {
            let i = choose|i: int|
                0 <= i < payloads@.len() && #[trigger] contact_matches(by_alias_filter, payloads@[i])
                    && payloads@[i].id@ == s;
            assert(contact_named(payloads@[i], query@));
        }
        if exists|i: int|
            0 <= i < payloads@.len() && #[trigger] contact_named(payloads@[i], query@) && payloads@[i].id@ == s {
            let i = choose|i: int|
                0 <= i < payloads@.len() && #[trigger] contact_named(payloads@[i], query@) && payloads@[i].id@ == s;
            if payloads@[i].id@ == query@ {
                assert(contact_matches(by_id_filter, payloads@[i]));
            } else {
                assert(contact_matches(by_alias_filter, payloads@[i]));
            }
        }
    }
    r
}

/// Name and name-pattern constraints apply together: a filter that sets a name
/// matches no contact unless the contact has exactly that name, whatever its
/// pattern, so when no contact has that name the search finds nothing.
pub proof fn lemma_name_constraints_conjoin(f: ContactQueryFilter, ps: Seq<ContactPayload>)
    requires
        f.name is Some,
        forall|i: int| 0 <= i < ps.len() ==> #[trigger] ps[i].name@ != f.name->Some_0@,
    ensures
        contact_ids_matching(f, ps) == Seq::<Seq<char>>::empty(),
        forall|p: ContactPayload| #[trigger] contact_matches(f, p) ==> p.name@ == f.name->Some_0@
            && regex_constraint(f.name_regex, p.name),
    decreases ps.len(),
{
    if ps.len() > 0 {
        let init = ps.drop_last();
        assert forall|i: int| 0 <= i < init.len() implies #[trigger] init[i].name@ != f.name->Some_0@ by {
            assert(init[i] == ps[i]);
        }
        lemma_name_constraints_conjoin(f, init);
        assert(ps[ps.len() - 1] == ps.last());
    }
}

/// What a message search asks for. Every constraint that is set must hold.
#[derive(Clone, Debug)]
pub struct MessageQueryFilter {
    pub from_id: Option<String>,
    pub id: Option<String>,
    pub room_id: Option<String>,
    pub text: Option<String>,
    pub text_regex: Option<String>,
    pub to_id: Option<String>,
    pub message_type: Option<MessageType>,
}

impl Default for MessageQueryFilter {
    fn default() -> (r: MessageQueryFilter)
        ensures
            r.from_id is None && r.id is None && r.room_id is None && r.text is None && r.text_regex is None
                && r.to_id is None && r.message_type is None,
    {
        MessageQueryFilter {
            from_id: None,
            id: None,
            room_id: None,
            text: None,
            text_regex: None,
            to_id: None,
            message_type: None,
        }
    }
}

/// A message satisfies a filter, given the outcome of its text pattern.
pub open spec fn message_fields_match(f: MessageQueryFilter, p: MessagePayload, text_re: bool) -> bool {
    &&& exact(f.id, p.id)
    &&& (f.message_type matches Some(t) ==> p.message_type == t)
    &&& exact(f.from_id, p.from_id)
    &&& exact(f.to_id, p.to_id)
    &&& exact(f.room_id, p.room_id)
    &&& exact(f.text, p.text)
    &&& regex_ok(f.text_regex, text_re)
}

/// A message satisfies a filter: all of its set constraints hold.
pub open spec fn message_matches(f: MessageQueryFilter, p: MessagePayload) -> bool {
    message_fields_match(f, p, regex_constraint(f.text_regex, p.text))
}

impl MessageQueryFilter {
    /// Whether `p` satisfies this filter, given whether the text pattern (where
    /// set) accepts the message's text.
    pub fn accepts_with(&self, p: &MessagePayload, text_re: bool) -> (r: bool)
        ensures
            r == message_fields_match(*self, *p, text_re),
    {
        let type_ok = match self.message_type {
            Some(t) => t == p.message_type,
            None => true,
        };
        exact_holds(&self.id, &p.id) && type_ok && exact_holds(&self.from_id, &p.from_id) && exact_holds(
            &self.to_id,
            &p.to_id,
        ) && exact_holds(&self.room_id, &p.room_id) && exact_holds(&self.text, &p.text) && (
        self.text_regex.is_none() || text_re)
    }

    /// Whether `p` satisfies this filter.
    pub fn accepts(&self, p: &MessagePayload) -> (r: bool)
        ensures
            r == message_matches(*self, *p),
    {
        let text_re = regex_holds(&self.text_regex, &p.text);
        self.accepts_with(p, text_re)
    }
}

/// The ids of the messages that satisfy the filter, in order.
pub open spec fn message_ids_matching(f: MessageQueryFilter, ps: Seq<MessagePayload>) -> Seq<Seq<char>>
    decreases ps.len(),
{
    if ps.len() == 0 {
        Seq::empty()
    } else {
        let rest = message_ids_matching(f, ps.drop_last());
        if message_matches(f, ps.last()) {
            rest.push(ps.last().id@)
        } else {
            rest
        }
    }
}

/// Keeps the ids of the loaded messages that satisfy `filter`, in the order given.
/// Message search only looks at messages already held in the cache.
pub fn message_search(filter: &MessageQueryFilter, payloads: &Vec<MessagePayload>) -> (r: Vec<String>)
    ensures
        views(r@) == message_ids_matching(*filter, payloads@),
{
    let mut out: Vec<String> = Vec::new();
    let mut i: usize = 0;
    while i < payloads.len()
        invariant
            0 <= i <= payloads@.len(),
            views(out@) == message_ids_matching(*filter, payloads@.subrange(0, i as int)),
        decreases payloads@.len() - i,
    {
        let ghost next = payloads@.subrange(0, i + 1);
        assert(next.drop_last() == payloads@.subrange(0, i as int));
        assert(next.last() == payloads@[i as int]);
        if filter.accepts(&payloads[i]) {
            out.push(payloads[i].id.clone());
            assert(views(out@) =~= views(out@.drop_last()).push(payloads@[i as int].id@));
        }
        i = i + 1;
    }
    assert(payloads@.subrange(0, payloads@.len() as int) == payloads@);
    out
}

/// What a room search asks for. Every constraint that is set must hold.
#[derive(Clone, Debug)]
pub struct RoomQueryFilter {
    pub id: Option<String>,
    pub topic: Option<String>,
    pub topic_regex: Option<String>,
}

/// A room satisfies a filter, given the outcome of its topic pattern.
pub open spec fn room_fields_match(f: RoomQueryFilter, p: RoomPayload, topic_re: bool) -> bool {
    &&& exact(f.id, p.id)
    &&& exact(f.topic, p.topic)
    &&& regex_ok(f.topic_regex, topic_re)
}

/// A room satisfies a filter: all of its set constraints hold.
pub open spec fn room_matches(f: RoomQueryFilter, p: RoomPayload) -> bool {
    room_fields_match(f, p, regex_constraint(f.topic_regex, p.topic))
}

impl RoomQueryFilter {
    /// Whether `p` satisfies this filter, given whether the topic pattern (where
    /// set) accepts the room's topic.
    pub fn accepts_with(&self, p: &RoomPayload, topic_re: bool) -> (r: bool)
        ensures
            r == room_fields_match(*self, *p, topic_re),
    {
        exact_holds(&self.id, &p.id) && exact_holds(&self.topic, &p.topic) && (self.topic_regex.is_none()
            || topic_re)
    }

    /// Whether `p` satisfies this filter.
    pub fn accepts(&self, p: &RoomPayload) -> (r: bool)
        ensures
            r == room_matches(*self, *p),
    {
        let topic_re = regex_holds(&self.topic_regex, &p.topic);
        self.accepts_with(p, topic_re)
    }
}

/// The ids of the rooms that satisfy the filter, in order.
pub open spec fn room_ids_matching(f: RoomQueryFilter, ps: Seq<RoomPayload>) -> Seq<Seq<char>>
    decreases ps.len(),
{
    if ps.len() == 0 {
        Seq::empty()
    } else {
        let rest = room_ids_matching(f, ps.drop_last());
        if room_matches(f, ps.last()) {
            rest.push(ps.last().id@)
        } else {
            rest
        }
    }
}

/// Keeps the ids of the loaded rooms that satisfy `filter`, in the order given.
pub fn room_search(filter: &RoomQueryFilter, payloads: &Vec<RoomPayload>) -> (r: Vec<String>)
    ensures
        views(r@) == room_ids_matching(*filter, payloads@),
{
    let mut out: Vec<String> = Vec::new();
    let mut i: usize = 0;
    while i < payloads.len()
        invariant
            0 <= i <= payloads@.len(),
            views(out@) == room_ids_matching(*filter, payloads@.subrange(0, i as int)),
        decreases payloads@.len() - i,
    {
        let ghost next = payloads@.subrange(0, i + 1);
        assert(next.drop_last() == payloads@.subrange(0, i as int));
        assert(next.last() == payloads@[i as int]);
        if filter.accepts(&payloads[i]) {
            out.push(payloads[i].id.clone());
            assert(views(out@) =~= views(out@.drop_last()).push(payloads@[i as int].id@));
        }
        i = i + 1;
    }
    assert(payloads@.subrange(0, payloads@.len() as int) == payloads@);
    out
}

/// What a room-member search asks for. Every constraint that is set must hold.
#[derive(Clone, Debug)]
pub struct RoomMemberQueryFilter {
    pub name: Option<String>,
    pub room_alias: Option<String>,
    pub name_regex: Option<String>,
    pub room_alias_regex: Option<String>,
}

/// A member satisfies a filter, given the outcome of its patterns.
pub open spec fn member_fields_match(f: RoomMemberQueryFilter, p: RoomMemberPayload, name_re: bool, alias_re: bool) -> bool {
    &&& exact(f.name, p.name)
    &&& exact(f.room_alias, p.room_alias)
    &&& regex_ok(f.name_regex, name_re)
    &&& regex_ok(f.room_alias_regex, alias_re)
}

/// A member satisfies a filter: all of its set constraints hold.
pub open spec fn member_matches(f: RoomMemberQueryFilter, p: RoomMemberPayload) -> bool {
    member_fields_match(
        f,
        p,
        regex_constraint(f.name_regex, p.name),
        regex_constraint(f.room_alias_regex, p.room_alias),
    )
}

impl RoomMemberQueryFilter {
    /// Whether `p` satisfies this filter, given whether the name and room-alias
    /// patterns (where set) accept the member's name and room alias.
    pub fn accepts_with(&self, p: &RoomMemberPayload, name_re: bool, alias_re: bool) -> (r: bool)
        ensures
            r == member_fields_match(*self, *p, name_re, alias_re),
    {
        exact_holds(&self.name, &p.name) && exact_holds(&self.room_alias, &p.room_alias) && (
        self.name_regex.is_none() || name_re) && (self.room_alias_regex.is_none() || alias_re)
    }

    /// Whether `p` satisfies this filter.
    pub fn accepts(&self, p: &RoomMemberPayload) -> (r: bool)
        ensures
            r == member_matches(*self, *p),
    {
        let name_re = regex_holds(&self.name_regex, &p.name);
        let alias_re = regex_holds(&self.room_alias_regex, &p.room_alias);
        self.accepts_with(p, name_re, alias_re)
    }
}

/// The ids of the members that satisfy the filter, in order.
pub open spec fn member_ids_matching(f: RoomMemberQueryFilter, ps: Seq<RoomMemberPayload>) -> Seq<Seq<char>>
    decreases ps.len(),
{
    if ps.len() == 0 {
        Seq::empty()
    } else {
        let rest = member_ids_matching(f, ps.drop_last());
        if member_matches(f, ps.last()) {
            rest.push(ps.last().id@)
        } else {
            rest
        }
    }
}

/// Keeps the ids of the loaded room members that satisfy `filter`, in the order given.
pub fn room_member_search(filter: &RoomMemberQueryFilter, payloads: &Vec<RoomMemberPayload>) -> (r: Vec<String>)
    ensures
        views(r@) == member_ids_matching(*filter, payloads@),
{
    let mut out: Vec<String> = Vec::new();
    let mut i: usize = 0;
    while i < payloads.len()
        invariant
            0 <= i <= payloads@.len(),
            views(out@) == member_ids_matching(*filter, payloads@.subrange(0, i as int)),
        decreases payloads@.len() - i,
    {
        let ghost next = payloads@.subrange(0, i + 1);
        assert(next.drop_last() == payloads@.subrange(0, i as int));
        assert(next.last() == payloads@[i as int]);
        if filter.accepts(&payloads[i]) {
            out.push(payloads[i].id.clone());
            assert(views(out@) =~= views(out@.drop_last()).push(payloads@[i as int].id@));
        }
        i = i + 1;
    }
    assert(payloads@.subrange(0, payloads@.len() as int) == payloads@);
    out
}

/// An id is among the matching member ids exactly when some matching member has it.
pub proof fn lemma_member_ids_member(f: RoomMemberQueryFilter, ps: Seq<RoomMemberPayload>, s: Seq<char>)
    ensures
        member_ids_matching(f, ps).contains(s) <==> exists|i: int|
            0 <= i < ps.len() && #[trigger] member_matches(f, ps[i]) && ps[i].id@ == s,
    decreases ps.len(),
{
    if ps.len() > 0 {
        let init = ps.drop_last();
        lemma_member_ids_member(f, init, s);
        let rest = member_ids_matching(f, init);
        if member_ids_matching(f, ps).contains(s) {
            if rest.contains(s) {
                let i = choose|i: int| 0 <= i < init.len() && #[trigger] member_matches(f, init[i]) && init[i].id@ == s;
                assert(ps[i] == init[i]);
            } else {
                assert(member_matches(f, ps.last()));
                assert(ps[ps.len() - 1] == ps.last());
            }
        }
        if exists|i: int| 0 <= i < ps.len() && #[trigger] member_matches(f, ps[i]) && ps[i].id@ == s {
            let i = choose|i: int| 0 <= i < ps.len() && #[trigger] member_matches(f, ps[i]) && ps[i].id@ == s;
            if i < ps.len() - 1 {
                assert(init[i] == ps[i]);
                assert(rest.contains(s));
                if member_matches(f, ps.last()) {
                    let k = choose|k: int| 0 <= k < rest.len() && rest[k] == s;
                    assert(member_ids_matching(f, ps)[k] == s);
                }
            } else {
                assert(ps[i] == ps.last());
                let full = member_ids_matching(f, ps);
                assert(full[full.len() - 1] == s);
            }
        }
    }
}

/// A member's name or room alias is `q`.
pub open spec fn member_named(p: RoomMemberPayload, q: Seq<char>) -> bool {
    p.name@ == q || p.room_alias@ == q
}

/// Searches the loaded members of a room by a string: the union, without
/// duplicates, of the ids of members whose name is `query` and of members whose
/// room alias is `query`.
pub fn room_member_search_by_string(query: &String, payloads: &Vec<RoomMemberPayload>) -> (r: Vec<String>)
    ensures
        no_duplicates(views(r@)),
        forall|s: Seq<char>| #[trigger] views(r@).contains(s) <==> exists|i: int|
            0 <= i < payloads@.len() && #[trigger] member_named(payloads@[i], query@) && payloads@[i].id@ == s,
{
    let by_name_filter = RoomMemberQueryFilter {
        name: Some(query.clone()),
        room_alias: None,
        name_regex: None,
        room_alias_regex: None,
    };
    let by_alias_filter = RoomMemberQueryFilter {
        name: None,
        room_alias: Some(query.clone()),
        name_regex: None,
        room_alias_regex: None,
    };
    let by_name = room_member_search(&by_name_filter, payloads);
    let by_alias = room_member_search(&by_alias_filter, payloads);
    let r = union_ids(&by_name, &by_alias);
    assert forall|s: Seq<char>| #[trigger] views(r@).contains(s) <==> exists|i: int|
        0 <= i < payloads@.len() && #[trigger] member_named(payloads@[i], query@) && payloads@[i].id@ == s by {
        lemma_member_ids_member(by_name_filter, payloads@, s);
        lemma_member_ids_member(by_alias_filter, payloads@, s);
        if views(by_name@).contains(s) {
            let i = choose|i: int|
                0 <= i < payloads@.len() && #[trigger] member_matches(by_name_filter, payloads@[i])
                    && payloads@[i].id@ == s;
            assert(member_named(payloads@[i], query@));
        }
        if views(by_alias@).contains(s) {
            let i = choose|i: int|
                0 <= i < payloads@.len() && #[trigger] member_matches(by_alias_filter, payloads@[i])
                    && payloads@[i].id@ == s;
            assert(member_named(payloads@[i], query@));
        }
        if exists|i: int|
            0 <= i < payloads@.len() && #[trigger] member_named(payloads@[i], query@) && payloads@[i].id@ == s {
            let i = choose|i: int|
                0 <= i < payloads@.len() && #[trigger] member_named(payloads@[i], query@) && payloads@[i].id@ == s;
            if payloads@[i].name@ == query@ {
                assert(member_matches(by_name_filter, payloads@[i]));
            } else {
                assert(member_matches(by_alias_filter, payloads@[i]));
            }
        }
    }
    r
}

} // verus!
