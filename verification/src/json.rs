//! Structured data as a tree of plain values.
//!
//! Text is read as JSON by the `serde_json` crate; what it yields is
//! copied into a tree of the library's own, on which the search for
//! products works.

use vstd::prelude::*;

verus! {

/// A value of a structured document.
#[derive(Debug)]
pub enum JsonValue {
    /// The value `null`.
    Null,
    /// `true` or `false`.
    Bool(bool),
    /// A number, held as the text in which `serde_json` writes it: digits
    /// with a leading minus sign for a negative integer, a form with a
    /// decimal point or an exponent for any other number.
    Number(String),
    /// A string.
    Text(String),
    /// A list of values.
    Array(Vec<JsonValue>),
    /// Named values, in the order in which `serde_json` holds them.
    Object(Vec<JsonMember>),
}

/// One named value of an object.
#[derive(Debug)]
pub struct JsonMember {
    pub key: String,
    pub value: JsonValue,
}

/// A value of a structured document as plain values.
pub enum JsonView {
    Null,
    Bool(bool),
    Number(Seq<char>),
    Text(Seq<char>),
    Array(Seq<JsonView>),
    Object(Seq<MemberView>),
}

/// One named value of an object as plain values.
pub struct MemberView {
    pub key: Seq<char>,
    pub value: JsonView,
}

impl View for JsonValue {
    type V = JsonView;

    open spec fn view(&self) -> JsonView
        decreases self,
    {
        match self {
            JsonValue::Null => JsonView::Null,
            JsonValue::Bool(b) => JsonView::Bool(*b),
            JsonValue::Number(n) => JsonView::Number(n@),
            JsonValue::Text(s) => JsonView::Text(s@),
            JsonValue::Array(items) => JsonView::Array(
                Seq::new(
                    items@.len(),
                    |i: int|
                        if 0 <= i < items@.len() {
                            items@[i].view()
                        } else {
                            JsonView::Null
                        },
                ),
            ),
            JsonValue::Object(members) => JsonView::Object(
                Seq::new(
                    members@.len(),
                    |i: int|
                        if 0 <= i < members@.len() {
                            MemberView { key: members@[i].key@, value: members@[i].value.view() }
                        } else {
                            MemberView { key: Seq::empty(), value: JsonView::Null }
                        },
                ),
            ),
        }
    }
}

/// The values of a list as plain values.
pub open spec fn item_views(items: Seq<JsonValue>) -> Seq<JsonView> {
    Seq::new(
        items.len(),
        |i: int|
            if 0 <= i < items.len() {
                items[i]@
            } else {
                JsonView::Null
            },
    )
}

/// The members of an object as plain values.
pub open spec fn member_views(members: Seq<JsonMember>) -> Seq<MemberView> {
    Seq::new(
        members.len(),
        |i: int|
            if 0 <= i < members.len() {
                MemberView { key: members[i].key@, value: members[i].value@ }
            } else {
                MemberView { key: Seq::empty(), value: JsonView::Null }
            },
    )
}

/// The view of a list is the list of the views of its items.
pub proof fn lemma_array_view(items: Vec<JsonValue>)
    ensures
        JsonValue::Array(items)@ == JsonView::Array(item_views(items@)),
{
    assert(JsonValue::Array(items)@->Array_0 =~= item_views(items@));
}

/// The view of an object is the list of the views of its members.
pub proof fn lemma_object_view(members: Vec<JsonMember>)
    ensures
        JsonValue::Object(members)@ == JsonView::Object(member_views(members@)),
{
    assert(JsonValue::Object(members)@->Object_0 =~= member_views(members@));
}

/// The value that the text `text` denotes as JSON, as `serde_json` reads
/// it; `None` where it refuses the text.
pub uninterp spec fn json_of(text: Seq<char>) -> Option<JsonView>;

/// `serde_json::Value`, the tree that `serde_json` reads; nothing is known
/// of it until it is copied.
#[verifier::external_type_specification]
#[verifier::external_body]
pub struct ExJsonValue(::serde_json::Value);

/// Copies a `serde_json::Value` into a tree of the library's own, variant
/// by variant. A number is copied as the text that its `Display` gives; the
/// members of an object come in the order of `serde_json::Map::iter`.
#[verifier::external_body]
fn copy_of(value: &::serde_json::Value) -> JsonValue {
    match value {
        ::serde_json::Value::Null => JsonValue::Null,
        ::serde_json::Value::Bool(b) => JsonValue::Bool(*b),
        ::serde_json::Value::Number(n) => JsonValue::Number(n.to_string()),
        ::serde_json::Value::String(s) => JsonValue::Text(s.clone()),
        ::serde_json::Value::Array(items) => JsonValue::Array(items.iter().map(copy_of).collect()),
        ::serde_json::Value::Object(members) => JsonValue::Object(
            members.iter().map(|(k, v)| JsonMember { key: k.clone(), value: copy_of(v) }).collect(),
        ),
    }
}

/// Reads `text` as JSON with `serde_json::from_str` and copies the value.
/// Text that is no JSON document gives `None`.
#[verifier::external_body]
fn read_json(text: &str) -> (value: Option<JsonValue>)
    ensures
        match value {
            Some(value) => json_of(text@) == Some(value@),
            None => json_of(text@) is None,
        },
{
    ::serde_json::from_str::<::serde_json::Value>(text).ok().map(|v| copy_of(&v))
}

/// Reads a text as JSON.
pub fn parse_json(text: &str) -> (value: Option<JsonValue>)
    ensures
        match value {
            Some(value) => json_of(text@) == Some(value@),
            None => json_of(text@) is None,
        },
{
    read_json(text)
}

} // verus!
