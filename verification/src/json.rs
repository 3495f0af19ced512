//! JSON values as job inputs carry them.
use serde_json::Value;
use vstd::prelude::*;

use crate::names;
use crate::text;

verus! {

/// A JSON value. Arrays and objects are held as their compact text, which is
/// all that a job is ever told of them.
#[derive(Debug, PartialEq, Eq)]
pub enum JsonValue {
    Null,
    Bool(bool),
    Number { integer: Option<i64>, text: String },
    Text(String),
    Composite(String),
}

/// The mathematical counterpart of `JsonValue`.
pub enum JsonView {
    Null,
    Bool(bool),
    Number { integer: Option<i64>, text: Seq<char> },
    Text(Seq<char>),
    Composite(Seq<char>),
}

impl View for JsonValue {
    type V = JsonView;

    open spec fn view(&self) -> JsonView {
        match self {
            JsonValue::Null => JsonView::Null,
            JsonValue::Bool(b) => JsonView::Bool(*b),
            JsonValue::Number { integer, text } => JsonView::Number {
                integer: *integer,
                text: text@,
            },
            JsonValue::Text(t) => JsonView::Text(t@),
            JsonValue::Composite(t) => JsonView::Composite(t@),
        }
    }
}

impl Clone for JsonValue {
    fn clone(&self) -> (r: Self)
        ensures
            r == *self,
    {
        match self {
            JsonValue::Null => JsonValue::Null,
            JsonValue::Bool(b) => JsonValue::Bool(*b),
            JsonValue::Number { integer, text } => JsonValue::Number {
                integer: *integer,
                text: text.clone(),
            },
            JsonValue::Text(t) => JsonValue::Text(t.clone()),
            JsonValue::Composite(t) => JsonValue::Composite(t.clone()),
        }
    }
}

/// How one character stands inside a JSON string.
pub open spec fn escaped_char(c: char) -> Seq<char> {
    if c == '"' {
        seq!['\\', '"']
    } else if c == '\\' {
        seq!['\\', '\\']
    } else if c == '\u{8}' {
        seq!['\\', 'b']
    } else if c == '\t' {
        seq!['\\', 't']
    } else if c == '\n' {
        seq!['\\', 'n']
    } else if c == '\u{c}' {
        seq!['\\', 'f']
    } else if c == '\r' {
        seq!['\\', 'r']
    } else if (c as int) < 32 {
        seq![
            '\\',
            'u',
            '0',
            '0',
            crate::digest::hex_char(c as int / 16),
            crate::digest::hex_char(c as int % 16),
        ]
    } else {
        seq![c]
    }
}

/// The characters of a text as they stand inside a JSON string.
pub open spec fn escaped(chars: Seq<char>) -> Seq<char>
    decreases chars.len(),
{
    if chars.len() == 0 {
        Seq::empty()
    } else {
        escaped(chars.drop_last()) + escaped_char(chars.last())
    }
}

/// A text as a quoted JSON string.
pub open spec fn quoted(chars: Seq<char>) -> Seq<char> {
    seq!['"'] + escaped(chars) + seq!['"']
}

/// `serde_json::Value::to_string` on a string: quotes around the text, with
/// quotes, backslashes and control characters escaped.
#[verifier::external_body]
fn quote(value: &str) -> (r: String)
    ensures
        r@ == quoted(value@),
{
    Value::String(value.to_string()).to_string()
}

/// A JSON value by its mathematical counterpart.
pub open spec fn json_model() -> spec_fn(JsonValue) -> JsonView {
    |value: JsonValue| value@
}

/// What `serde_json::from_slice` reads from some bytes: the members of an
/// object in name order, nothing for any other JSON value, or the parse error's
/// message.
pub uninterp spec fn parsed_object(body: Seq<u8>) -> Result<
    Option<Seq<(Seq<char>, JsonView)>>,
    Seq<char>,
>;

/// What a parse gave, names and values by their views.
pub open spec fn document_view(
    document: Result<Option<Vec<(String, JsonValue)>>, String>,
) -> Result<Option<Seq<(Seq<char>, JsonView)>>, Seq<char>> {
    match document {
        Ok(Some(members)) => Ok(
            Some(names::with_values(names::entry_views(members@), json_model())),
        ),
        Ok(None) => Ok(None),
        Err(message) => Err(message@),
    }
}

/// `serde_json::from_slice` into a `serde_json::Value`: what it reads has a
/// name, and the members of an object come in name order, each name once.
#[verifier::external_body]
pub(crate) fn parse_object(body: &[u8]) -> (r: Result<Option<Vec<(String, JsonValue)>>, String>)
    ensures
        document_view(r) == parsed_object(body@),
        r matches Ok(Some(members)) ==> names::names_sorted(names::entry_views(members@)),
{
    let convert = |(name, value)| match value {
        Value::Null => (name, JsonValue::Null),
        Value::Bool(b) => (name, JsonValue::Bool(b)),
        Value::Number(n) => (name, JsonValue::Number { integer: n.as_i64(), text: n.to_string() }),
        Value::String(t) => (name, JsonValue::Text(t)),
        other => (name, JsonValue::Composite(other.to_string())),
    };
    match serde_json::from_slice(body) {
        Ok(Value::Object(members)) => Ok(Some(members.into_iter().map(convert).collect())),
        Ok(_) => Ok(None),
        Err(error) => Err(error.to_string()),
    }
}

impl JsonView {
    /// The value's compact JSON text.
    pub open spec fn compact(self) -> Seq<char> {
        match self {
            JsonView::Null => "null"@,
            JsonView::Bool(true) => "true"@,
            JsonView::Bool(false) => "false"@,
            JsonView::Number { integer: Some(n), .. } => text::signed_decimal(n as int),
            JsonView::Number { integer: None, text } => text,
            JsonView::Text(t) => quoted(t),
            JsonView::Composite(t) => t,
        }
    }

    /// The value as a job's environment carries it: a string bare, anything
    /// else as compact JSON.
    pub open spec fn environment_text(self) -> Seq<char> {
        match self {
            JsonView::Text(t) => t,
            _ => self.compact(),
        }
    }
}

impl JsonValue {
    /// The characters of a string value.
    pub fn as_str(&self) -> (r: Option<&str>)
        ensures
            match r {
                Some(t) => self@ == JsonView::Text(t@),
                None => !(self@ is Text),
            },
    {
        match self {
            JsonValue::Text(t) => Some(t.as_str()),
            _ => None,
        }
    }

    /// The value of a number that fits in 64 signed bits.
    pub fn as_i64(&self) -> (r: Option<i64>)
        ensures
            r == match self@ {
                JsonView::Number { integer, .. } => integer,
                _ => None::<i64>,
            },
    {
        match self {
            JsonValue::Number { integer, .. } => *integer,
            _ => None,
        }
    }

    pub fn is_boolean(&self) -> (r: bool)
        ensures
            r == self@ is Bool,
    {
        match self {
            JsonValue::Bool(_) => true,
            _ => false,
        }
    }

    pub fn is_null(&self) -> (r: bool)
        ensures
            r == self@ is Null,
    {
        match self {
            JsonValue::Null => true,
            _ => false,
        }
    }

    /// The value's compact JSON text.
    pub fn to_json_text(&self) -> (r: String)
        ensures
            r@ == self@.compact(),
    {
        match self {
            JsonValue::Null => "null".to_owned(),
            JsonValue::Bool(b) => if *b {
                "true".to_owned()
            } else {
                "false".to_owned()
            },
            JsonValue::Number { integer, text } => match integer {
                Some(n) => text::signed_decimal_text(*n),
                None => text.clone(),
            },
            JsonValue::Text(t) => quote(t.as_str()),
            JsonValue::Composite(t) => t.clone(),
        }
    }

    /// The value as a job's environment carries it.
    pub fn to_environment_text(&self) -> (r: String)
        ensures
            r@ == self@.environment_text(),
    {
        match self.as_str() {
            Some(t) => t.to_owned(),
            None => self.to_json_text(),
        }
    }
}

} // verus!
