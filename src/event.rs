//! Raw progress events as the agent reports them, and the open-ended
//! structured values that tools take as input.

use vstd::prelude::*;
use vstd::string::*;

verus! {

/// A structured value without a fixed schema. Numbers keep their decimal
/// text; object members keep their order.
#[derive(Debug)]
pub enum JsonValue {
    Null,
    Bool(bool),
    Number(String),
    Str(String),
    Array(Vec<JsonValue>),
    Object(Vec<(String, JsonValue)>),
}

/// The value of the first member of `entries` named `key`.
pub open spec fn member(entries: Seq<(String, JsonValue)>, key: Seq<char>) -> Option<JsonValue>
    decreases entries.len(),
{
    if entries.len() == 0 {
        None
    } else if entries[0].0@ == key {
        Some(entries[0].1)
    } else {
        member(entries.drop_first(), key)
    }
}

/// The member `key` of `v`, when `v` is an object that has one.
pub open spec fn get(v: JsonValue, key: Seq<char>) -> Option<JsonValue> {
    match v {
        JsonValue::Object(entries) => member(entries@, key),
        _ => None,
    }
}

/// The text of `v`, when it is a string.
pub open spec fn as_text(v: Option<JsonValue>) -> Option<Seq<char>> {
    match v {
        Some(JsonValue::Str(s)) => Some(s@),
        _ => None,
    }
}

impl JsonValue {
    /// The text of member `key`, when this is an object whose member `key`
    /// is a string.
    pub fn text_member(&self, key: &str) -> (r: Option<String>)
        ensures
            r is Some == as_text(get(*self, key@)) is Some,
            r matches Some(t) ==> t@ == as_text(get(*self, key@))->0,
    {
        match self.find_member(key) {
            Some(JsonValue::Str(s)) => Some(s.clone()),
            _ => None,
        }
    }

    /// The text of this value, when it is a string.
    pub fn text_value(&self) -> (r: Option<String>)
        ensures
            r is Some == as_text(Some(*self)) is Some,
            r matches Some(t) ==> t@ == as_text(Some(*self))->0,
    {
        match self {
            JsonValue::Str(s) => Some(s.clone()),
            _ => None,
        }
    }

    /// Member `key` of this value, when this is an object that has one.
    pub fn find_member(&self, key: &str) -> (r: Option<&JsonValue>)
        ensures
            r is Some == get(*self, key@) is Some,
            r matches Some(v) ==> *v == get(*self, key@)->0,
    {
        match self {
            JsonValue::Object(entries) => {
                let mut i: usize = 0;
                assert(entries@.subrange(0, entries@.len() as int) =~= entries@);
                while i < entries.len()
                    invariant
                        i <= entries.len(),
                        *self == JsonValue::Object(*entries),
                        member(entries@, key@) == member(entries@.subrange(i as int, entries@.len() as int), key@),
                    decreases entries.len() - i,
                {
                    let ghost rest = entries@.subrange(i as int, entries@.len() as int);
                    assert(rest.drop_first() =~= entries@.subrange(i + 1, entries@.len() as int));
                    if crate::text::same_text(entries[i].0.as_str(), key) {
                        return Some(&entries[i].1);
                    }
                    i = i + 1;
                }
                None
            },
            _ => None,
        }
    }
}

/// Start and end of a tool run, in milliseconds.
#[derive(Debug, Clone, Copy)]
pub struct ToolTime {
    pub start: Option<u64>,
    pub end: Option<u64>,
}

/// What a tool part reports about its run.
#[derive(Debug)]
pub struct ToolState {
    pub status: Option<String>,
    pub title: Option<String>,
    pub input: Option<JsonValue>,
    pub output: Option<String>,
    pub error: Option<String>,
    pub time: Option<ToolTime>,
}

/// The state a session changed to; `attempt` counts retries.
#[derive(Debug)]
pub struct EventStatus {
    pub status_type: String,
    pub attempt: Option<u32>,
}

/// A fragment of a response that was created or changed.
#[derive(Debug)]
pub struct EventPart {
    pub part_type: String,
    pub session_id: Option<String>,
    pub tool: Option<String>,
    pub state: Option<ToolState>,
}

#[derive(Debug)]
pub struct EventProperties {
    pub session_id: Option<String>,
    pub status: Option<EventStatus>,
    pub part: Option<EventPart>,
}

/// One event of the agent's progress stream.
#[derive(Debug)]
pub struct Event {
    pub event_type: String,
    pub properties: Option<EventProperties>,
}

} // verus!
