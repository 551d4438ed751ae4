//! JSON values as this library reads them.
//!
//! Reading a text is left to `serde_json`; the value that comes back is held in
//! [`Json`], a tree of plain values, and everything that looks into a value is
//! verified over that tree.

use vstd::prelude::*;
use vstd::string::*;
use crate::decimal::{from_decimal, parse_decimal};
use crate::text::str_eq;

verus! {

#[verifier::external_type_specification]
#[verifier::external_body]
pub struct ExJsonValue(serde_json::Value);

#[verifier::external_type_specification]
#[verifier::external_body]
pub struct ExJsonNumber(serde_json::Number);

/// A number of a JSON text: one that fits `u64`, a negative one that fits `i64`,
/// or any other, kept as the text that `serde_json` prints for it.
#[derive(Debug, PartialEq, Eq)]
pub enum JsonNumber {
    Unsigned(u64),
    Negative(i64),
    Real(String),
}

/// A JSON value. The members of an object stand in the order in which `serde_json`
/// hands them out, each key once.
#[derive(Debug, PartialEq, Eq)]
pub enum Json {
    Null,
    Bool(bool),
    Number(JsonNumber),
    Text(String),
    Array(Vec<Json>),
    Object(Vec<(String, Json)>),
}

/// The value that `serde_json` reads from a text, `None` where it rejects the text.
pub uninterp spec fn json_of_text(text: Seq<char>) -> Option<Json>;

/// Moves a number of `serde_json` into [`JsonNumber`]. Nothing is claimed of it.
#[verifier::external_body]
fn lift_number(number: serde_json::Number) -> JsonNumber {
    match (number.as_u64(), number.as_i64()) {
        (Some(u), _) => JsonNumber::Unsigned(u),
        (None, Some(i)) => JsonNumber::Negative(i),
        (None, None) => JsonNumber::Real(number.to_string()),
    }
}

/// Moves a value of `serde_json` into [`Json`], variant by variant. Nothing is
/// claimed of it.
#[verifier::external_body]
fn lift(value: serde_json::Value) -> Json {
    match value {
        serde_json::Value::Null => Json::Null,
        serde_json::Value::Bool(b) => Json::Bool(b),
        serde_json::Value::Number(n) => Json::Number(lift_number(n)),
        serde_json::Value::String(s) => Json::Text(s),
        serde_json::Value::Array(items) => Json::Array(items.into_iter().map(lift).collect()),
        serde_json::Value::Object(members) => Json::Object(
            members.into_iter().map(|(k, v)| (k, lift(v))).collect(),
        ),
    }
}

/// Calls `serde_json::from_str` for a `serde_json::Value`; an error becomes `None`.
/// The contract claims that the outcome depends on the text alone: it is
/// [`json_of_text`] of the text.
#[verifier::external_body]
fn read_value(text: &str) -> (r: Option<Json>)
    ensures
        r == json_of_text(text@),
{
    match serde_json::from_str::<serde_json::Value>(text) {
        Ok(value) => Some(lift(value)),
        Err(_) => None,
    }
}

/// The character of one hexadecimal digit, in lower case.
pub open spec fn hex_lower(d: nat) -> char
    recommends
        d < 16,
{
    if d < 10 {
        crate::decimal::digit_char(d)
    } else if d == 10 {
        'a'
    } else if d == 11 {
        'b'
    } else if d == 12 {
        'c'
    } else if d == 13 {
        'd'
    } else if d == 14 {
        'e'
    } else {
        'f'
    }
}

/// How one character stands inside a JSON string.
pub open spec fn escaped_char(c: char) -> Seq<char> {
    if c == '"' {
        seq!['\\', '"']
    } else if c == '\\' {
        seq!['\\', '\\']
    } else if c == '\u{08}' {
        seq!['\\', 'b']
    } else if c == '\u{09}' {
        seq!['\\', 't']
    } else if c == '\u{0A}' {
        seq!['\\', 'n']
    } else if c == '\u{0C}' {
        seq!['\\', 'f']
    } else if c == '\u{0D}' {
        seq!['\\', 'r']
    } else if (c as nat) < 0x20 {
        seq!['\\', 'u', '0', '0', hex_lower((c as nat) / 16), hex_lower((c as nat) % 16)]
    } else {
        seq![c]
    }
}

/// The characters of a text as they stand inside a JSON string.
pub open spec fn escaped(s: Seq<char>) -> Seq<char>
    decreases s.len(),
{
    if s.len() == 0 {
        Seq::empty()
    } else {
        escaped_char(s[0]) + escaped(s.drop_first())
    }
}

/// A text as a JSON string: escaped, between double quotes.
pub open spec fn quoted(s: Seq<char>) -> Seq<char> {
    seq!['"'] + escaped(s) + seq!['"']
}

/// Calls `serde_json::to_string` on a string slice. The contract claims what the
/// crate's source shows. The text that comes back is the slice between double
/// quotes, with `"` and `\` behind a backslash, the control characters below U+0020
/// as `\b`, `\t`, `\n`, `\f`, `\r` or `\u00xx`, and every other character as it is.
/// And a text always comes back: the crate writes a string into a byte vector of its
/// own and reports an error only where that write does, which a write to a vector
/// never does. An error, had there been one, would come out as the empty text.
#[verifier::external_body]
fn write_text(s: &str) -> (r: String)
    ensures
        r@ == quoted(s@),
{
    serde_json::to_string(s).unwrap_or_default()
}

/// The JSON string for a text: the text escaped and between double quotes.
pub fn quote(s: &str) -> (r: String)
    ensures
        r@ == quoted(s@),
{
    write_text(s)
}

/// The first member of `members` under `key`.
pub open spec fn lookup(members: Seq<(String, Json)>, key: Seq<char>) -> Option<Json>
    decreases members.len(),
{
    if members.len() == 0 {
        None
    } else if members[0].0@ == key {
        Some(members[0].1)
    } else {
        lookup(members.drop_first(), key)
    }
}

/// Takes the first member under `key` out of a list of members.
fn take_member(members: Vec<(String, Json)>, key: &str) -> (r: Option<Json>)
    ensures
        r == lookup(members@, key@),
{
    let mut list = members;
    let mut i: usize = 0;
    assert(list@.skip(0) =~= list@);
    while i < list.len()
        invariant
            i <= list.len(),
            list@ == members@,
            lookup(members@, key@) == lookup(members@.skip(i as int), key@),
        decreases list.len() - i,
    {
        let ghost rest = list@.skip(i as int);
        assert(rest[0] == list@[i as int]);
        assert(rest.drop_first() =~= list@.skip(i + 1));
        if str_eq(list[i].0.as_str(), key) {
            assert(lookup(rest, key@) == Some(rest[0].1));
            let pair = list.swap_remove(i);
            return Some(pair.1);
        }
        i = i + 1;
    }
    None
}

impl Json {
    /// Reads a JSON text. Where a text names a member of an object twice, the
    /// member has the value that stands last.
    pub fn parse(text: &str) -> (r: Option<Json>)
        ensures
            r == json_of_text(text@),
    {
        read_value(text)
    }

    /// The member of an object under `key`; `None` for any other value and where
    /// the object has no such member.
    pub open spec fn field(self, key: Seq<char>) -> Option<Json> {
        match self {
            Json::Object(members) => lookup(members@, key),
            _ => None,
        }
    }

    /// The member under `key` unless it is missing or null.
    pub open spec fn present(self, key: Seq<char>) -> Option<Json> {
        match self.field(key) {
            Some(Json::Null) => None,
            other => other,
        }
    }

    /// The characters of a string value.
    pub open spec fn text(self) -> Option<Seq<char>> {
        match self {
            Json::Text(s) => Some(s@),
            _ => None,
        }
    }

    /// The value as an unsigned 64-bit number.
    pub open spec fn unsigned(self) -> Option<u64> {
        match self {
            Json::Number(JsonNumber::Unsigned(n)) => Some(n),
            _ => None,
        }
    }

    /// The value as a signed 64-bit number.
    pub open spec fn signed(self) -> Option<i64> {
        match self {
            Json::Number(JsonNumber::Unsigned(n)) => if n <= i64::MAX {
                Some(n as i64)
            } else {
                None
            },
            Json::Number(JsonNumber::Negative(n)) => Some(n),
            _ => None,
        }
    }

    /// The value as a boolean.
    pub open spec fn boolean(self) -> Option<bool> {
        match self {
            Json::Bool(b) => Some(b),
            _ => None,
        }
    }

    /// The items of an array.
    pub open spec fn items(self) -> Option<Seq<Json>> {
        match self {
            Json::Array(items) => Some(items@),
            _ => None,
        }
    }

    /// The identifier that a string value spells in decimal.
    pub open spec fn id(self) -> Option<u64> {
        match self.text() {
            Some(t) => parse_decimal(t),
            None => None,
        }
    }

    pub fn get(&self, key: &str) -> (r: Option<&Json>)
        ensures
            match r {
                Some(v) => self.field(key@) == Some(*v),
                None => self.field(key@) is None,
            },
    {
        match self {
            Json::Object(members) => {
                let mut i: usize = 0;
                assert(members@.skip(0) =~= members@);
                while i < members.len()
                    invariant
                        i <= members.len(),
                        self.field(key@) == lookup(members@, key@),
                        lookup(members@, key@) == lookup(members@.skip(i as int), key@),
                    decreases members.len() - i,
                {
                    let ghost rest = members@.skip(i as int);
                    assert(rest[0] == members@[i as int]);
                    assert(rest.drop_first() =~= members@.skip(i + 1));
                    if str_eq(members[i].0.as_str(), key) {
                        return Some(&members[i].1);
                    }
                    i = i + 1;
                }
                None
            },
            _ => None,
        }
    }

    /// Takes the member under `key` out of the value.
    pub fn take(self, key: &str) -> (r: Option<Json>)
        ensures
            r == self.field(key@),
    {
        match self {
            Json::Object(members) => take_member(members, key),
            _ => None,
        }
    }

    pub fn get_present(&self, key: &str) -> (r: Option<&Json>)
        ensures
            match r {
                Some(v) => self.present(key@) == Some(*v),
                None => self.present(key@) is None,
            },
    {
        match self.get(key) {
            Some(Json::Null) => None,
            other => other,
        }
    }

    pub fn as_text(&self) -> (r: Option<&str>)
        ensures
            match r {
                Some(t) => self.text() == Some(t@),
                None => self.text() is None,
            },
    {
        match self {
            Json::Text(s) => Some(s.as_str()),
            _ => None,
        }
    }

    pub fn as_unsigned(&self) -> (r: Option<u64>)
        ensures
            r == self.unsigned(),
    {
        match self {
            Json::Number(JsonNumber::Unsigned(n)) => Some(*n),
            _ => None,
        }
    }

    pub fn as_signed(&self) -> (r: Option<i64>)
        ensures
            r == self.signed(),
    {
        match self {
            Json::Number(JsonNumber::Unsigned(n)) => if *n <= 0x7fff_ffff_ffff_ffffu64 {
                Some(*n as i64)
            } else {
                None
            },
            Json::Number(JsonNumber::Negative(n)) => Some(*n),
            _ => None,
        }
    }

    pub fn as_boolean(&self) -> (r: Option<bool>)
        ensures
            r == self.boolean(),
    {
        match self {
            Json::Bool(b) => Some(*b),
            _ => None,
        }
    }

    pub fn as_items(&self) -> (r: Option<&Vec<Json>>)
        ensures
            match r {
                Some(items) => self.items() == Some(items@),
                None => self.items() is None,
            },
    {
        match self {
            Json::Array(items) => Some(items),
            _ => None,
        }
    }

    pub fn as_id(&self) -> (r: Option<u64>)
        ensures
            r == self.id(),
    {
        match self.as_text() {
            Some(t) => from_decimal(t),
            None => None,
        }
    }
}

} // verus!
