//! Structured documents: what they hold, and how members are put in and taken
//! out.

use vstd::prelude::*;
use crate::text::text_eq;

verus! {

/// A document, or a part of one.
#[derive(Debug)]
pub enum Json {
    Null,
    Bool(bool),
    Number(serde_json::Number),
    Text(String),
    List(Vec<Json>),
    Object(Vec<Member>),
}

/// A member of an object.
#[derive(Debug)]
pub struct Member {
    pub name: String,
    pub value: Json,
}

/// What a document holds.
pub enum JsonView {
    Null,
    Bool(bool),
    Number(serde_json::Number),
    Text(Seq<char>),
    List(Seq<JsonView>),
    Object(Map<Seq<char>, JsonView>),
}

/// What a document holds.
pub open spec fn content(json: Json) -> JsonView
    decreases json,
{
    match json {
        Json::Null => JsonView::Null,
        Json::Bool(value) => JsonView::Bool(value),
        Json::Number(value) => JsonView::Number(value),
        Json::Text(text) => JsonView::Text(text@),
        Json::List(items) => JsonView::List(items_content(items@)),
        Json::Object(members) => JsonView::Object(members_content(members@)),
    }
}

/// What the items of a list hold.
pub open spec fn items_content(items: Seq<Json>) -> Seq<JsonView>
    decreases items,
{
    if items.len() == 0 {
        Seq::empty()
    } else {
        items_content(items.drop_last()).push(content(items[items.len() - 1]))
    }
}

/// What the members of an object hold. Of several members of one name the last
/// counts.
pub open spec fn members_content(members: Seq<Member>) -> Map<Seq<char>, JsonView>
    decreases members,
{
    if members.len() == 0 {
        Map::empty()
    } else {
        let last = members[members.len() - 1];
        members_content(members.drop_last()).insert(last.name@, content(last.value))
    }
}

impl View for Json {
    type V = JsonView;

    open spec fn view(&self) -> JsonView {
        content(*self)
    }
}

/// `serde_json::Value` is a document of the outside library.
#[verifier::external_type_specification]
#[verifier::external_body]
pub struct ExValue(serde_json::Value);

/// `serde_json::Number` is a number of a document, carried through unread.
#[verifier::external_type_specification]
#[verifier::external_body]
pub struct ExNumber(serde_json::Number);

/// What a document of the outside library holds.
pub uninterp spec fn value_content(value: serde_json::Value) -> JsonView;

/// What a text says as a document, or why it says nothing.
pub uninterp spec fn parsed_text(text: Seq<char>) -> Result<JsonView, Seq<char>>;

/// What bytes say as a document, or why they say nothing.
pub uninterp spec fn parsed_bytes(bytes: Seq<u8>) -> Result<JsonView, Seq<char>>;

/// A document as one line of text, or why it has none.
pub uninterp spec fn written_text(document: JsonView) -> Result<Seq<char>, Seq<char>>;

/// A document as the bytes of an indented text, or why it has none.
pub uninterp spec fn written_bytes(document: JsonView) -> Result<Seq<u8>, Seq<char>>;

/// `serde_json::from_str` reads a document out of a text. What it reads, and what
/// it says where it cannot, depend on the text alone.
#[verifier::external_body]
pub(crate) fn read_text(text: &str) -> (result: Result<serde_json::Value, String>)
    ensures
        match result {
            Ok(value) => parsed_text(text@) == Ok::<JsonView, Seq<char>>(value_content(value)),
            Err(cause) => parsed_text(text@) == Err::<JsonView, Seq<char>>(cause@),
        },
{
    serde_json::from_str::<serde_json::Value>(text).map_err(|cause| cause.to_string())
}

/// `serde_json::from_slice` reads a document out of bytes. What it reads, and what
/// it says where it cannot, depend on the bytes alone.
#[verifier::external_body]
pub(crate) fn read_bytes(bytes: &[u8]) -> (result: Result<serde_json::Value, String>)
    ensures
        match result {
            Ok(value) => parsed_bytes(bytes@) == Ok::<JsonView, Seq<char>>(value_content(value)),
            Err(cause) => parsed_bytes(bytes@) == Err::<JsonView, Seq<char>>(cause@),
        },
{
    serde_json::from_slice::<serde_json::Value>(bytes).map_err(|cause| cause.to_string())
}

/// `serde_json::to_string` writes a document as one line of text, which depends
/// on what the document holds alone.
#[verifier::external_body]
pub(crate) fn write_text(value: &serde_json::Value) -> (result: Result<String, String>)
    ensures
        match result {
            Ok(text) => written_text(value_content(*value)) == Ok::<Seq<char>, Seq<char>>(text@),
            Err(cause) => written_text(value_content(*value)) == Err::<Seq<char>, Seq<char>>(
                cause@,
            ),
        },
{
    serde_json::to_string(value).map_err(|cause| cause.to_string())
}

/// `serde_json::to_vec_pretty` writes a document as indented text, which depends
/// on what the document holds alone.
#[verifier::external_body]
pub(crate) fn write_bytes(value: &serde_json::Value) -> (result: Result<Vec<u8>, String>)
    ensures
        match result {
            Ok(bytes) => written_bytes(value_content(*value)) == Ok::<Seq<u8>, Seq<char>>(bytes@),
            Err(cause) => written_bytes(value_content(*value)) == Err::<Seq<u8>, Seq<char>>(cause@),
        },
{
    serde_json::to_vec_pretty(value).map_err(|cause| cause.to_string())
}

/// Takes a `serde_json::Value` apart, variant by variant, into a document that
/// holds the same.
#[verifier::external_body]
pub(crate) fn from_value(value: &serde_json::Value) -> (json: Json)
    ensures
        json@ == value_content(*value),
{
    match value {
        serde_json::Value::Null => Json::Null,
        serde_json::Value::Bool(value) => Json::Bool(*value),
        serde_json::Value::Number(value) => Json::Number(value.clone()),
        serde_json::Value::String(text) => Json::Text(text.clone()),
        serde_json::Value::Array(items) => Json::List(items.iter().map(from_value).collect()),
        serde_json::Value::Object(members) => Json::Object(
            members.iter().map(|(name, value)| {
                Member { name: name.clone(), value: from_value(value) }
            }).collect(),
        ),
    }
}

/// Puts a `serde_json::Value` together, variant by variant, that holds what a
/// document holds.
#[verifier::external_body]
pub(crate) fn to_value(json: &Json) -> (value: serde_json::Value)
    ensures
        value_content(value) == json@,
{
    match json {
        Json::Null => serde_json::Value::Null,
        Json::Bool(value) => serde_json::Value::Bool(*value),
        Json::Number(value) => serde_json::Value::Number(value.clone()),
        Json::Text(text) => serde_json::Value::String(text.clone()),
        Json::List(items) => serde_json::Value::Array(items.iter().map(to_value).collect()),
        Json::Object(members) => serde_json::Value::Object(
            members.iter().map(|m| (m.name.clone(), to_value(&m.value))).collect(),
        ),
    }
}

/// The content of a list that got one more item.
pub proof fn items_grow(items: Seq<Json>, item: Json)
    ensures
        items_content(items.push(item)) == items_content(items).push(content(item)),
{
    assert(items.push(item).drop_last() =~= items);
}

/// The content of an object that got one more member.
pub proof fn members_grow(members: Seq<Member>, member: Member)
    ensures
        members_content(members.push(member)) == members_content(members).insert(
            member.name@,
            content(member.value),
        ),
{
    assert(members.push(member).drop_last() =~= members);
}

/// What an optional document holds.
pub open spec fn optional_content(json: Option<Json>) -> Option<JsonView> {
    match json {
        Some(json) => Some(json@),
        None => None,
    }
}

/// What a map holds under a name, if anything.
pub open spec fn held(members: Map<Seq<char>, JsonView>, name: Seq<char>) -> Option<JsonView> {
    if members.contains_key(name) {
        Some(members[name])
    } else {
        None
    }
}

/// Takes a member out of an object.
pub fn take_member(members: Vec<Member>, name: &str) -> (outcome: (Option<Json>, Vec<Member>))
    ensures
        optional_content(outcome.0) == held(members_content(members@), name@),
        members_content(outcome.1@) == members_content(members@).remove(name@),
{
    let mut source = members;
    let mut rest: Vec<Member> = Vec::new();
    let mut found: Option<Json> = None;
    let ghost mut consumed: Seq<Member> = Seq::empty();
    assert(members@ =~= consumed + source@);
    assert(members_content(rest@) =~= members_content(consumed).remove(name@));
    while source.len() > 0
        invariant
            members@ == consumed + source@,
            optional_content(found) == held(members_content(consumed), name@),
            members_content(rest@) == members_content(consumed).remove(name@),
        decreases source@.len(),
    {
        let member = source.remove(0);
        proof {
            members_grow(consumed, member);
            members_grow(rest@, member);
            consumed = consumed.push(member);
            assert(members@ =~= consumed + source@);
        }
        if text_eq(&member.name, name) {
            found = Some(member.value);
            assert(members_content(rest@) =~= members_content(consumed).remove(name@));
        } else {
            rest.push(member);
            assert(members_content(rest@) =~= members_content(consumed).remove(name@));
        }
    }
    assert(consumed =~= members@);
    (found, rest)
}

/// Puts a member into an object, in the place of one of that name.
pub fn put_member(members: Vec<Member>, name: &str, value: Json) -> (after: Vec<Member>)
    ensures
        members_content(after@) == members_content(members@).insert(name@, value@),
{
    let (_, mut rest) = take_member(members, name);
    let member = Member { name: name.to_owned(), value };
    proof {
        members_grow(rest@, member);
    }
    rest.push(member);
    assert(members_content(rest@) =~= members_content(members@).insert(name@, value@));
    rest
}

/// The text that a member of a document holds, if it holds one.
pub open spec fn text_member(json: JsonView, name: Seq<char>) -> Option<Seq<char>> {
    match json {
        JsonView::Object(members) => match held(members, name) {
            Some(JsonView::Text(text)) => Some(text),
            _ => None,
        },
        _ => None,
    }
}

/// Whether a member of a document holds a text.
pub fn has_text(json: &Json, name: &str, expected: &str) -> (holds: bool)
    ensures
        holds == (text_member(json@, name@) == Some(expected@)),
{
    let members = match json {
        Json::Object(members) => members,
        _ => return false,
    };
    let mut next = members.len();
    proof {
        assert(members@.take(members@.len() as int) =~= members@);
    }
    while next > 0
        invariant
            next <= members@.len(),
            held(members_content(members@), name@) == held(
                members_content(members@.take(next as int)),
                name@,
            ),
            json@ == JsonView::Object(members_content(members@)),
        decreases next,
    {
        let ghost upto = members@.take(next as int);
        let member = &members[next - 1];
        proof {
            assert(upto.drop_last() =~= members@.take(next - 1));
        }
        if text_eq(&member.name, name) {
            assert(upto[upto.len() - 1] == *member);
            assert(held(members_content(members@), name@) == Some(content(member.value)));
            return match &member.value {
                Json::Text(text) => {
                    assert(content(member.value) == JsonView::Text(text@));
                    text_eq(text, expected)
                },
                _ => false,
            };
        }
        next = next - 1;
    }
    false
}

/// A document holds what it is made of: its numbers, texts and truths as they are, and a
/// list or an object nothing but its parts.
pub proof fn documents_hold_what_they_are(
    truth: bool,
    text: String,
    items: Vec<Json>,
    members: Vec<Member>,
)
    ensures
        content(Json::Null) is Null,
        content(Json::Bool(truth)) == JsonView::Bool(truth),
        content(Json::Text(text)) == JsonView::Text(text@),
        content(Json::List(items)) == JsonView::List(items_content(items@)),
        items_content(items@).len() == items@.len(),
        content(Json::Object(members)) == JsonView::Object(members_content(members@)),
{
    items_are_as_many(items@);
}

proof fn items_are_as_many(items: Seq<Json>)
    ensures
        items_content(items).len() == items.len(),
    decreases items.len(),
{
    if items.len() > 0 {
        items_are_as_many(items.drop_last());
    }
}

/// A number in a document is that number.
pub proof fn numbers_are_kept(json: Json)
    requires
        json is Number,
    ensures
        content(json) == JsonView::Number(json->Number_0),
{
}

} // verus!
