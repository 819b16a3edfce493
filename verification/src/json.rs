//! JSON documents, and how the values in them are found.
use vstd::prelude::*;

use crate::text::{
    chars_of, opt_text, parse_number, parsed_number, same, split_char, split_parts, texts,
};

verus! {

/// A number: as an unsigned and as a signed integer, where it is one, and as it is written.
#[derive(Debug, Clone)]
pub struct JsonNumber {
    pub unsigned: Option<u64>,
    pub signed: Option<i64>,
    pub text: String,
}

/// A JSON value.
#[derive(Debug)]
pub enum Json {
    Null,
    Bool(bool),
    Number(JsonNumber),
    Text(String),
    List(Vec<Json>),
    Object(Vec<(String, Json)>),
}

/// `serde_json::Value`, carried between the wrappers below.
#[verifier::external_type_specification]
#[verifier::external_body]
pub struct ExValue(serde_json::Value);

/// The document that `serde_json::from_str` reads from a text, or its message.
pub uninterp spec fn json_document(text: Seq<char>) -> Result<Json, Seq<char>>;

/// The compact text that `serde_json::Value` is displayed as.
pub uninterp spec fn json_text(value: Json) -> Seq<char>;

/// A `serde_json::Value` taken apart: each variant becomes the one of the same name here.
#[verifier::external_body]
fn json_from_value(value: serde_json::Value) -> (r: Json) {
    match value {
        serde_json::Value::Null => Json::Null,
        serde_json::Value::Bool(b) => Json::Bool(b),
        serde_json::Value::Number(n) => Json::Number(
            JsonNumber { unsigned: n.as_u64(), signed: n.as_i64(), text: n.to_string() },
        ),
        serde_json::Value::String(s) => Json::Text(s),
        serde_json::Value::Array(a) => Json::List(a.into_iter().map(json_from_value).collect()),
        serde_json::Value::Object(m) => Json::Object(
            m.into_iter().map(|(k, v)| (k, json_from_value(v))).collect(),
        ),
    }
}

/// A `serde_json::Value` put together: each variant becomes the one of the same name there.
#[verifier::external_body]
fn value_from_json(value: &Json) -> (r: serde_json::Value) {
    match value {
        Json::Null => serde_json::Value::Null,
        Json::Bool(b) => serde_json::Value::Bool(*b),
        Json::Number(n) => serde_json::from_str(&n.text).unwrap_or(serde_json::Value::Null),
        Json::Text(s) => serde_json::Value::String(s.clone()),
        Json::List(a) => serde_json::Value::Array(a.iter().map(value_from_json).collect()),
        Json::Object(m) => serde_json::Value::Object(
            m.iter().map(|(k, v)| (k.clone(), value_from_json(v))).collect(),
        ),
    }
}

/// `serde_json::from_str` on a whole text: the document, or the error's message. What is read
/// depends on the text alone and is given a name.
#[verifier::external_body]
pub(crate) fn parse_json(text: &str) -> (r: Result<Json, String>)
    ensures
        match r {
            Ok(value) => json_document(text@) == Ok::<Json, Seq<char>>(value),
            Err(message) => json_document(text@) == Err::<Json, Seq<char>>(message@),
        },
{
    match serde_json::from_str::<serde_json::Value>(text) {
        Ok(value) => Ok(json_from_value(value)),
        Err(error) => Err(error.to_string()),
    }
}

/// The text that `serde_json::Value::to_string` writes for a value. It depends on the value
/// alone and is given a name.
#[verifier::external_body]
pub(crate) fn render_json(value: &Json) -> (r: String)
    ensures
        r@ == json_text(*value),
{
    value_from_json(value).to_string()
}

/// The value of the first entry at or after `from` with the given key.
pub open spec fn lookup_from(entries: Seq<(String, Json)>, key: Seq<char>, from: int) -> Option<Json>
    decreases entries.len() - from,
{
    if from < 0 || from >= entries.len() {
        None
    } else if entries[from].0@ == key {
        Some(entries[from].1)
    } else {
        lookup_from(entries, key, from + 1)
    }
}

/// The member of an object.
pub open spec fn member(value: Json, key: Seq<char>) -> Option<Json> {
    match value {
        Json::Object(entries) => lookup_from(entries@, key, 0),
        _ => None,
    }
}

/// The index that a step of a path names: digits without a leading zero.
pub open spec fn step_index(step: Seq<char>) -> Option<nat> {
    if step.len() == 0 || step[0] == '+' || (step[0] == '0' && step.len() != 1) {
        None
    } else {
        parsed_number(step, u64::MAX as nat)
    }
}

/// The value one step below: a member of an object or an item of a list.
pub open spec fn child(value: Json, step: Seq<char>) -> Option<Json> {
    match value {
        Json::Object(entries) => lookup_from(entries@, step, 0),
        Json::List(items) => match step_index(step) {
            Some(i) => if i < items@.len() {
                Some(items@[i as int])
            } else {
                None
            },
            None => None,
        },
        _ => None,
    }
}

/// The value below by the steps from number `i` on.
pub open spec fn below(value: Json, steps: Seq<Seq<char>>, i: int) -> Option<Json>
    decreases steps.len() - i,
{
    if i < 0 || i >= steps.len() {
        Some(value)
    } else {
        match child(value, steps[i]) {
            Some(next) => below(next, steps, i + 1),
            None => None,
        }
    }
}

/// The value at a path: each `/` is followed by the name of one step.
pub open spec fn value_at(value: Json, path: Seq<char>) -> Option<Json> {
    if path.len() == 0 {
        Some(value)
    } else if path[0] != '/' {
        None
    } else {
        below(value, split_parts(path, '/'), 1)
    }
}

/// The text of a text value.
pub open spec fn text_value(value: Option<Json>) -> Option<Seq<char>> {
    match value {
        Some(Json::Text(s)) => Some(s@),
        _ => None,
    }
}

/// The items of a list value.
pub open spec fn list_value(value: Option<Json>) -> Option<Seq<Json>> {
    match value {
        Some(Json::List(items)) => Some(items@),
        _ => None,
    }
}

/// The unsigned integer of a number value.
pub open spec fn unsigned_value(value: Option<Json>) -> Option<u64> {
    match value {
        Some(Json::Number(n)) => n.unsigned,
        _ => None,
    }
}

/// The signed integer of a number value.
pub open spec fn signed_value(value: Option<Json>) -> Option<i64> {
    match value {
        Some(Json::Number(n)) => n.signed,
        _ => None,
    }
}

/// The truth value of a truth value.
pub open spec fn bool_value(value: Option<Json>) -> Option<bool> {
    match value {
        Some(Json::Bool(b)) => Some(b),
        _ => None,
    }
}

/// What an optional reference refers to.
pub open spec fn target(value: Option<&Json>) -> Option<Json> {
    match value {
        Some(v) => Some(*v),
        None => None,
    }
}

fn lookup<'a>(entries: &'a Vec<(String, Json)>, key: &str) -> (r: Option<&'a Json>)
    ensures
        target(r) == lookup_from(entries@, key@, 0),
{
    let mut i: usize = 0;
    while i < entries.len()
        invariant
            i <= entries@.len(),
            lookup_from(entries@, key@, 0) == lookup_from(entries@, key@, i as int),
        decreases entries.len() - i,
    {
        if same(entries[i].0.as_str(), key) {
            return Some(&entries[i].1);
        }
        i += 1;
    }
    None
}

fn index_of_step(step: &str) -> (r: Option<u64>)
    ensures
        match r {
            Some(i) => step_index(step@) == Some(i as nat),
            None => step_index(step@) is None,
        },
{
    let chars = chars_of(step);
    if chars.len() == 0 || chars[0] == '+' || (chars[0] == '0' && chars.len() != 1) {
        None
    } else {
        parse_number(step, u64::MAX)
    }
}

fn child_of<'a>(value: &'a Json, step: &str) -> (r: Option<&'a Json>)
    ensures
        target(r) == child(*value, step@),
{
    match value {
        Json::Object(entries) => lookup(entries, step),
        Json::List(items) => match index_of_step(step) {
            Some(i) => if i < items.len() as u64 {
                Some(&items[i as usize])
            } else {
                None
            },
            None => None,
        },
        _ => None,
    }
}

impl Json {
    /// The member of an object.
    pub fn get(&self, key: &str) -> (r: Option<&Json>)
        ensures
            target(r) == member(*self, key@),
    {
        match self {
            Json::Object(entries) => lookup(entries, key),
            _ => None,
        }
    }

    /// The value at a path.
    pub fn pointer(&self, path: &str) -> (r: Option<&Json>)
        ensures
            target(r) == value_at(*self, path@),
    {
        let chars = chars_of(path);
        if chars.len() == 0 {
            return Some(self);
        }
        if chars[0] != '/' {
            return None;
        }
        let steps = split_char(path, '/');
        let mut current: &Json = self;
        let mut i: usize = 1;
        while i < steps.len()
            invariant
                1 <= i <= steps@.len(),
                texts(steps@) == split_parts(path@, '/'),
                below(*self, split_parts(path@, '/'), 1) == below(
                    *current,
                    split_parts(path@, '/'),
                    i as int,
                ),
            decreases steps.len() - i,
        {
            assert(steps@[i as int]@ == split_parts(path@, '/')[i as int]);
            match child_of(current, steps[i].as_str()) {
                Some(next) => {
                    current = next;
                },
                None => {
                    return None;
                },
            }
            i += 1;
        }
        Some(current)
    }

    pub fn as_str(&self) -> (r: Option<String>)
        ensures
            opt_text(r) == text_value(Some(*self)),
    {
        match self {
            Json::Text(s) => Some(s.clone()),
            _ => None,
        }
    }

    pub fn as_u64(&self) -> (r: Option<u64>)
        ensures
            r == unsigned_value(Some(*self)),
    {
        match self {
            Json::Number(n) => n.unsigned,
            _ => None,
        }
    }

    pub fn as_i64(&self) -> (r: Option<i64>)
        ensures
            r == signed_value(Some(*self)),
    {
        match self {
            Json::Number(n) => n.signed,
            _ => None,
        }
    }

    pub fn as_bool(&self) -> (r: Option<bool>)
        ensures
            r == bool_value(Some(*self)),
    {
        match self {
            Json::Bool(b) => Some(*b),
            _ => None,
        }
    }

    pub fn as_array(&self) -> (r: Option<&Vec<Json>>)
        ensures
            (match r {
                Some(items) => Some(items@),
                None => None,
            }) == list_value(Some(*self)),
    {
        match self {
            Json::List(items) => Some(items),
            _ => None,
        }
    }

    /// Takes the member out of an object.
    #[verifier::loop_isolation(false)]
    pub fn take(self, key: &str) -> (r: Option<Json>)
        ensures
            r == member(self, key@),
    {
        match self {
            Json::Object(entries) => {
                let mut entries = entries;
                let ghost all = entries@;
                let mut i: usize = 0;
                while i < entries.len()
                    invariant
                        i <= entries@.len(),
                        entries@ == all,
                        lookup_from(all, key@, 0) == lookup_from(all, key@, i as int),
                    decreases entries.len() - i,
                {
                    if same(entries[i].0.as_str(), key) {
                        let entry = entries.remove(i);
                        return Some(entry.1);
                    }
                    i += 1;
                }
                None
            },
            _ => None,
        }
    }
}

} // verus!
