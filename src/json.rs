use vstd::prelude::*;

verus! {

/// A self-describing JSON-shaped value, as stored under a context key.
///
/// Scalars are typed, so that edge conditions can read them. A number keeps
/// its JSON text, so that no precision is lost on the way through the store;
/// an array or an object is kept as its JSON text.
#[derive(Debug, PartialEq, Eq)]
pub enum JsonValue {
    Null,
    Bool(bool),
    Number(String),
    Text(String),
    Array(String),
    Object(String),
}

impl Clone for JsonValue {
    fn clone(&self) -> (r: Self)
        ensures
            r == *self,
    {
        match self {
            JsonValue::Null => JsonValue::Null,
            JsonValue::Bool(b) => JsonValue::Bool(*b),
            JsonValue::Number(s) => JsonValue::Number(s.clone()),
            JsonValue::Text(s) => JsonValue::Text(s.clone()),
            JsonValue::Array(s) => JsonValue::Array(s.clone()),
            JsonValue::Object(s) => JsonValue::Object(s.clone()),
        }
    }
}

impl JsonValue {
    /// Whether this is the boolean `true`.
    pub fn is_true(&self) -> (r: bool)
        ensures
            r == (*self == JsonValue::Bool(true)),
    {
        match self {
            JsonValue::Bool(b) => *b,
            _ => false,
        }
    }

    /// Whether this is a string with exactly the characters of `text`.
    pub fn is_text(&self, text: &String) -> (r: bool)
        ensures
            r == is_text_value(*self, text@),
    {
        match self {
            JsonValue::Text(s) => *s == *text,
            _ => false,
        }
    }
}

/// The value is a JSON string whose characters are `text`.
pub open spec fn is_text_value(v: JsonValue, text: Seq<char>) -> bool {
    match v {
        JsonValue::Text(s) => s@ == text,
        _ => false,
    }
}

} // verus!
