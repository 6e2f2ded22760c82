//! JSON text the runner writes or reads, through serde_json.
use vstd::prelude::*;
use crate::k8s_model::{opt_str_view, strs_view};

verus! {

/// What `serde_json::to_string` writes for a string: a quoted, escaped JSON string literal.
pub uninterp spec fn json_string_text(s: Seq<char>) -> Seq<char>;

/// serde_json's `to_string` on a `&str`; its result is named `json_string_text` of the string.
#[verifier::external_body]
pub fn json_string(s: &str) -> (r: String)
    ensures
        r@ == json_string_text(s@),
{
    match serde_json::to_string(s) {
        Ok(t) => t,
        Err(_) => String::new(),
    }
}

/// chrono's RFC 3339 text of the UTC instant `ns` nanoseconds after the epoch.
pub uninterp spec fn rfc3339_text(ns: i64) -> Seq<char>;

/// chrono's `DateTime::from_timestamp_nanos` (which takes every `i64`) followed by
/// `to_rfc3339`; the result is named `rfc3339_text` of the argument.
#[verifier::external_body]
pub fn rfc3339_from_nanos(ns: i64) -> (r: String)
    ensures
        r@ == rfc3339_text(ns),
{
    chrono::DateTime::from_timestamp_nanos(ns).to_rfc3339()
}

/// A JSON value as plain data: a string, an object (each member as its name, its string when
/// the value is a string, and the value written back compactly, in the text's order), an
/// array (each item written back compactly), or another value written back compactly.
pub enum JsonShape {
    Text(String),
    Members(Vec<(String, Option<String>, String)>),
    Items(Vec<String>),
    Other(String),
}

pub enum JsonShapeView {
    Text(Seq<char>),
    Members(Seq<(Seq<char>, Option<Seq<char>>, Seq<char>)>),
    Items(Seq<Seq<char>>),
    Other(Seq<char>),
}

pub open spec fn members_view(v: Seq<(String, Option<String>, String)>) -> Seq<(Seq<char>, Option<Seq<char>>, Seq<char>)> {
    v.map_values(|x: (String, Option<String>, String)| (x.0@, opt_str_view(x.1), x.2@))
}

impl View for JsonShape {
    type V = JsonShapeView;

    open spec fn view(&self) -> JsonShapeView {
        match self {
            JsonShape::Text(t) => JsonShapeView::Text(t@),
            JsonShape::Members(m) => JsonShapeView::Members(members_view(m@)),
            JsonShape::Items(v) => JsonShapeView::Items(strs_view(v@)),
            JsonShape::Other(t) => JsonShapeView::Other(t@),
        }
    }
}

/// serde_json's reading of a text as one JSON value (`from_str::<Value>`), as plain data;
/// `None` when the text is no JSON.
pub uninterp spec fn json_shape(text: Seq<char>) -> Option<JsonShapeView>;

/// serde_json's `from_str::<Value>`, the value handed back as `JsonShape`; named `json_shape`.
#[verifier::external_body]
pub(crate) fn read_json_shape(text: &str) -> (r: Option<JsonShape>)
    ensures
        match json_shape(text@) {
            Some(v) => r is Some && r->0@ == v,
            None => r is None,
        },
{
    Some(match serde_json::from_str::<serde_json::Value>(text).ok()? {
        serde_json::Value::String(s) => JsonShape::Text(s),
        serde_json::Value::Object(m) => JsonShape::Members(m.into_iter().map(|(k, v)| {
            let json = v.to_string();
            match v {
                serde_json::Value::String(s) => (k, Some(s), json),
                _ => (k, None, json),
            }
        }).collect()),
        serde_json::Value::Array(a) => JsonShape::Items(a.iter().map(|v| v.to_string()).collect()),
        v => JsonShape::Other(v.to_string()),
    })
}

/// Whether serde_json reads a text as one JSON value.
pub open spec fn is_json_text(text: Seq<char>) -> bool {
    json_shape(text) is Some
}

/// The string of the last member named `key` among an object's members, when that member
/// is a string.
pub open spec fn string_member(members: Seq<(Seq<char>, Option<Seq<char>>, Seq<char>)>, key: Seq<char>) -> Option<Seq<char>>
    decreases members.len(),
{
    if members.len() == 0 {
        None
    } else if members.last().0 == key {
        members.last().1
    } else {
        string_member(members.drop_last(), key)
    }
}

/// The status that a status event's text carries: the string itself when the text is a JSON
/// string, else the string member `status` of the JSON object; `None` when the text is not
/// JSON or carries neither.
pub open spec fn json_status_text(text: Seq<char>) -> Option<Seq<char>> {
    match json_shape(text) {
        Some(JsonShapeView::Text(s)) => Some(s),
        Some(JsonShapeView::Members(m)) => string_member(m, "status"@),
        _ => None,
    }
}

/// The string member `key` of an object's members, as `string_member` says.
pub fn string_member_exec(members: &Vec<(String, Option<String>, String)>, key: &str) -> (r: Option<String>)
    ensures
        opt_str_view(r) == string_member(members_view(members@), key@),
{
    let k = crate::text::owned(key);
    let mut found: Option<String> = None;
    let mut i: usize = 0;
    while i < members.len()
        invariant
            i <= members@.len(),
            k@ == key@,
            opt_str_view(found) == string_member(members_view(members@.take(i as int)), key@),
        decreases members@.len() - i,
    {
        let ghost t = members_view(members@.take(i + 1));
        assert(t.drop_last() =~= members_view(members@.take(i as int)));
        assert(t.last() == (members@[i as int].0@, opt_str_view(members@[i as int].1), members@[i as int].2@));
        if members[i].0 == k {
            found = crate::k8s_model::clone_opt_string(&members[i].1);
        }
        i = i + 1;
    }
    assert(members@.take(members@.len() as int) =~= members@);
    found
}

/// The status that a status event's text carries, as `json_status_text` says.
pub fn json_status(text: &str) -> (r: Option<String>)
    ensures
        match json_status_text(text@) {
            Some(t) => r is Some && r->0@ == t,
            None => r is None,
        },
{
    match read_json_shape(text) {
        Some(JsonShape::Text(s)) => Some(s),
        Some(JsonShape::Members(m)) => string_member_exec(&m, "status"),
        _ => None,
    }
}

/// Whether serde_json reads `text` as one JSON value.
pub fn json_parses(text: &str) -> (r: bool)
    ensures
        r == is_json_text(text@),
{
    read_json_shape(text).is_some()
}

} // verus!
