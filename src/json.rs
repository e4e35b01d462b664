use vstd::prelude::*;

use crate::envelope::{Field, Message};

verus! {

#[verifier::external_type_specification]
#[verifier::external_body]
pub struct ExValue(serde_json::Value);

/// What `serde_json::Value::get` returns for a string key.
pub uninterp spec fn json_field_of(v: serde_json::Value, key: Seq<char>) -> Option<serde_json::Value>;

/// What `serde_json::Value::as_str` returns.
pub uninterp spec fn json_text_of(v: serde_json::Value) -> Option<Seq<char>>;

/// What `serde_json::Value::is_object` returns.
pub uninterp spec fn json_is_object_of(v: serde_json::Value) -> bool;

/// Relies on `serde_json::Value::get`: the value under `key` when `v` is an
/// object that holds it.
#[verifier::external_body]
fn json_get<'a>(v: &'a serde_json::Value, key: &str) -> (r: Option<&'a serde_json::Value>)
    ensures
        match r {
            Some(f) => json_field_of(*v, key@) == Some(*f),
            None => json_field_of(*v, key@) is None,
        },
{
    v.get(key)
}

/// Relies on `serde_json::Value::as_str`: the text of a string value.
#[verifier::external_body]
fn json_str(v: &serde_json::Value) -> (r: Option<String>)
    ensures
        match r {
            Some(t) => json_text_of(*v) == Some(t@),
            None => json_text_of(*v) is None,
        },
{
    v.as_str().map(|s| s.to_string())
}

/// Relies on `serde_json::Value::is_object`: whether the value is an object.
#[verifier::external_body]
fn json_is_object(v: &serde_json::Value) -> (r: bool)
    ensures
        r == json_is_object_of(*v),
{
    v.is_object()
}

/// How deep nested objects are read: an Undo, its Like, the Like's object.
pub const NESTING: usize = 3;

/// The text under `key`, when `v` holds a string there.
pub open spec fn text_field(v: serde_json::Value, key: Seq<char>) -> Option<Seq<char>> {
    match json_field_of(v, key) {
        Some(f) => json_text_of(f),
        None => None,
    }
}

pub open spec fn text_of(o: Option<String>) -> Option<Seq<char>> {
    match o {
        Some(t) => Some(t@),
        None => None,
    }
}

/// `f` is what the property `key` of `v` reads as: a link for a string, a
/// nested message for an object (while `depth` allows), else absent.
pub open spec fn reads_field(f: Field, v: serde_json::Value, key: Seq<char>, depth: nat) -> bool
    decreases depth, 0nat,
{
    match json_field_of(v, key) {
        None => f is Absent,
        Some(x) => match json_text_of(x) {
            Some(t) => f matches Field::Link(u) && u@ == t,
            None => if depth > 0 && json_is_object_of(x) {
                f matches Field::Nested(m) && reads(*m, x, (depth - 1) as nat)
            } else {
                f is Absent
            },
        },
    }
}

/// `m` holds the properties of `v` that the inbox uses.
pub open spec fn reads(m: Message, v: serde_json::Value, depth: nat) -> bool
    decreases depth, 1nat,
{
    &&& text_of(m.kind) == text_field(v, "type"@)
    &&& text_of(m.id) == text_field(v, "id"@)
    &&& reads_field(m.actor, v, "actor"@, depth)
    &&& reads_field(m.object, v, "object"@, depth)
    &&& text_of(m.name) == text_field(v, "name"@)
    &&& text_of(m.content) == text_field(v, "content"@)
    &&& text_of(m.url) == text_field(v, "url"@)
    &&& text_of(m.summary) == text_field(v, "summary"@)
    &&& text_of(m.in_reply_to) == text_field(v, "inReplyTo"@)
}

fn read_text(v: &serde_json::Value, key: &str) -> (r: Option<String>)
    ensures
        text_of(r) == text_field(*v, key@),
{
    match json_get(v, key) {
        Some(f) => json_str(f),
        None => None,
    }
}

fn read_field(v: &serde_json::Value, key: &str, depth: usize) -> (r: Field)
    ensures
        reads_field(r, *v, key@, depth as nat),
    decreases depth, 0nat,
{
    match json_get(v, key) {
        None => Field::Absent,
        Some(f) => match json_str(f) {
            Some(u) => Field::Link(u),
            None => if depth > 0 && json_is_object(f) {
                Field::Nested(Box::new(read_message(f, depth - 1)))
            } else {
                Field::Absent
            },
        },
    }
}

/// Reads the properties the inbox uses from a JSON activity. A property that
/// is a string is a link; one that is an object is read as a nested message,
/// down to `depth` levels; anything else counts as absent.
pub fn read_message(v: &serde_json::Value, depth: usize) -> (r: Message)
    ensures
        reads(r, *v, depth as nat),
    decreases depth, 1nat,
{
    Message {
        kind: read_text(v, "type"),
        id: read_text(v, "id"),
        actor: read_field(v, "actor", depth),
        object: read_field(v, "object", depth),
        name: read_text(v, "name"),
        content: read_text(v, "content"),
        url: read_text(v, "url"),
        summary: read_text(v, "summary"),
        in_reply_to: read_text(v, "inReplyTo"),
    }
}

} // verus!
