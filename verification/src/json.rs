//! A plain model of JSON values carried in message payloads.

use vstd::prelude::*;

verus! {

/// A JSON value.  Numbers keep their decimal text exactly as written, so no
/// precision is lost between the wire form and this one.
#[derive(Debug, PartialEq)]
pub enum JsonValue {
    /// `null`
    Null,
    /// `true` or `false`
    Bool(bool),
    /// A number, as its JSON text
    Number(String),
    /// A string
    String(String),
    /// An array of values
    Array(Vec<JsonValue>),
    /// An object: its members, in the order they were read
    Object(Vec<JsonMember>),
}

/// One member of a JSON object.
#[derive(Debug, PartialEq)]
pub struct JsonMember {
    pub key: String,
    pub value: JsonValue,
}

/// `v` is the JSON string whose text is `s`.
pub open spec fn is_json_text(v: JsonValue, s: Seq<char>) -> bool {
    v matches JsonValue::String(t) && t@ == s
}

/// `v` is the JSON array of the strings `items`, in order.
pub open spec fn is_json_text_array(v: JsonValue, items: Seq<String>) -> bool {
    &&& v matches JsonValue::Array(elems)
    &&& elems@.len() == items.len()
    &&& forall|i: int| 0 <= i < items.len() ==> is_json_text(#[trigger] elems@[i], items[i]@)
}

impl JsonValue {
    /// A JSON string value.
    pub fn text(s: &str) -> (v: JsonValue)
        ensures
            is_json_text(v, s@),
    {
        JsonValue::String(String::from_str(s))
    }

    /// A JSON array holding the given strings, in order.
    pub fn text_array(items: &Vec<String>) -> (v: JsonValue)
        ensures
            is_json_text_array(v, items@),
    {
        let mut elems: Vec<JsonValue> = Vec::new();
        let mut i: usize = 0;
        while i < items.len()
            invariant
                i <= items@.len(),
                elems@.len() == i,
                forall|k: int| 0 <= k < i ==> is_json_text(#[trigger] elems@[k], items@[k]@),
            decreases items@.len() - i,
        {
            elems.push(JsonValue::String(items[i].clone()));
            i = i + 1;
        }
        JsonValue::Array(elems)
    }

    /// The text of a JSON string value; `None` for every other kind of value.
    pub fn as_str(&self) -> (r: Option<&String>)
        ensures
            r matches Some(s) ==> is_json_text(*self, s@),
            r is None ==> !(*self is String),
    {
        match self {
            JsonValue::String(s) => Some(s),
            _ => None,
        }
    }
}

} // verus!
