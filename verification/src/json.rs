//! A JSON document as plain values, and the parser that produces it.

use vstd::prelude::*;
use vstd::string::StringExecFns;

verus! {

/// A JSON value. A number carries its value as an unsigned integer of 64
/// bits and as a signed one, each where it is an integer of that range; any
/// other number has neither.
#[derive(Debug)]
pub enum Json {
    Null,
    Bool(bool),
    Number { unsigned: Option<u64>, signed: Option<i64> },
    Str(String),
    Array(Vec<Json>),
    Object(Vec<(String, Json)>),
}

/// The mathematical value of a [`Json`].
pub ghost enum JsonValue {
    Null,
    Bool(bool),
    Number { unsigned: Option<u64>, signed: Option<i64> },
    Str(Seq<char>),
    Array(Seq<JsonValue>),
    Object(Seq<(Seq<char>, JsonValue)>),
}

impl View for Json {
    type V = JsonValue;

    open spec fn view(&self) -> JsonValue
        decreases self,
    {
        match self {
            Json::Null => JsonValue::Null,
            Json::Bool(b) => JsonValue::Bool(*b),
            Json::Number { unsigned, signed } => JsonValue::Number {
                unsigned: *unsigned,
                signed: *signed,
            },
            Json::Str(s) => JsonValue::Str(s@),
            Json::Array(items) => JsonValue::Array(items_view(items@)),
            Json::Object(fields) => JsonValue::Object(fields_view(fields@)),
        }
    }
}

/// The values of a sequence of documents, item by item.
pub open spec fn items_view(items: Seq<Json>) -> Seq<JsonValue>
    decreases items,
{
    if items.len() == 0 {
        Seq::empty()
    } else {
        items_view(items.drop_last()).push(items.last()@)
    }
}

/// The names and values of a sequence of members, member by member.
pub open spec fn fields_view(fields: Seq<(String, Json)>) -> Seq<(Seq<char>, JsonValue)>
    decreases fields,
{
    if fields.len() == 0 {
        Seq::empty()
    } else {
        fields_view(fields.drop_last()).push((fields.last().0@, fields.last().1@))
    }
}

/// The view of a sequence of documents has one value for each item.
pub proof fn lemma_items_view(items: Seq<Json>)
    ensures
        items_view(items).len() == items.len(),
        forall|i: int| 0 <= i < items.len() ==> #[trigger] items_view(items)[i] == items[i]@,
    decreases items.len(),
{
    if items.len() > 0 {
        lemma_items_view(items.drop_last());
        assert(items_view(items) == items_view(items.drop_last()).push(items.last()@));
    } else {
        assert(items_view(items).len() == 0);
    }
}

/// The view of a sequence of members has one pair for each member.
pub proof fn lemma_fields_view(fields: Seq<(String, Json)>)
    ensures
        fields_view(fields).len() == fields.len(),
        forall|i: int|
            0 <= i < fields.len() ==> #[trigger] fields_view(fields)[i] == (
                fields[i].0@,
                fields[i].1@,
            ),
    decreases fields.len(),
{
    if fields.len() > 0 {
        lemma_fields_view(fields.drop_last());
        assert(fields_view(fields) == fields_view(fields.drop_last()).push(
            (fields.last().0@, fields.last().1@),
        ));
    } else {
        assert(fields_view(fields).len() == 0);
    }
}

/// The value of the first member called `name` among the members of an
/// object, if there is one.
pub open spec fn member(fields: Seq<(Seq<char>, JsonValue)>, name: Seq<char>) -> Option<JsonValue>
    decreases fields.len(),
{
    if fields.len() == 0 {
        None
    } else if fields[0].0 == name {
        Some(fields[0].1)
    } else {
        member(fields.drop_first(), name)
    }
}

/// No name occurs twice among the members of an object.
pub open spec fn distinct_names(fields: Seq<(Seq<char>, JsonValue)>) -> bool {
    forall|a: int, b: int|
        0 <= a < b < fields.len() ==> (#[trigger] fields[a]).0 != (#[trigger] fields[b]).0
}

impl JsonValue {
    /// The member called `name`, where the value is an object that has one.
    pub open spec fn get(self, name: Seq<char>) -> Option<JsonValue> {
        match self {
            JsonValue::Object(fields) => member(fields, name),
            _ => None,
        }
    }

    /// The text of a string value.
    pub open spec fn as_str(self) -> Option<Seq<char>> {
        match self {
            JsonValue::Str(s) => Some(s),
            _ => None,
        }
    }

    /// The truth value of a boolean.
    pub open spec fn as_bool(self) -> Option<bool> {
        match self {
            JsonValue::Bool(b) => Some(b),
            _ => None,
        }
    }

    /// A number that is a non-negative integer below 2^64.
    pub open spec fn as_u64(self) -> Option<u64> {
        match self {
            JsonValue::Number { unsigned, signed } => unsigned,
            _ => None,
        }
    }

    /// A number that is an integer of 64 bits with a sign.
    pub open spec fn as_i64(self) -> Option<i64> {
        match self {
            JsonValue::Number { unsigned, signed } => signed,
            _ => None,
        }
    }

    /// The items of an array.
    pub open spec fn as_array(self) -> Option<Seq<JsonValue>> {
        match self {
            JsonValue::Array(items) => Some(items),
            _ => None,
        }
    }

    /// The members of an object.
    pub open spec fn as_object(self) -> Option<Seq<(Seq<char>, JsonValue)>> {
        match self {
            JsonValue::Object(fields) => Some(fields),
            _ => None,
        }
    }

    pub open spec fn is_null(self) -> bool {
        self is Null
    }
}

impl Json {
    /// The member called `name`, where this is an object that has one.
    pub fn get(&self, name: &str) -> (found: Option<&Json>)
        ensures
            found matches Some(j) ==> self@.get(name@) == Some(j@),
            found is None ==> self@.get(name@) is None,
    {
        match self {
            Json::Object(fields) => {
                let wanted = String::from_str(name);
                let ghost all = fields_view(fields@);
                proof {
                    lemma_fields_view(fields@);
                    assert(self@ == JsonValue::Object(all));
                    assert(all.skip(0) =~= all);
                }
                let mut i: usize = 0;
                while i < fields.len()
                    invariant
                        i <= fields.len(),
                        wanted@ == name@,
                        all.len() == fields.len(),
                        forall|k: int|
                            0 <= k < fields.len() ==> #[trigger] all[k] == (fields[k].0@, fields[k].1@),
                        self@ == JsonValue::Object(all),
                        member(all, name@) == member(all.skip(i as int), name@),
                    decreases fields.len() - i,
                {
                    proof {
                        assert(all.skip(i as int)[0] == all[i as int]);
                        assert(all.skip(i as int).drop_first() =~= all.skip(i + 1));
                    }
                    if fields[i].0 == wanted {
                        return Some(&fields[i].1);
                    }
                    i = i + 1;
                }
                None
            },
            _ => None,
        }
    }

    /// The text of a string value.
    pub fn as_str(&self) -> (text: Option<&str>)
        ensures
            text matches Some(s) ==> self@.as_str() == Some(s@),
            text is None ==> self@.as_str() is None,
    {
        match self {
            Json::Str(s) => Some(s.as_str()),
            _ => None,
        }
    }

    /// The truth value of a boolean.
    pub fn as_bool(&self) -> (value: Option<bool>)
        ensures
            value == self@.as_bool(),
    {
        match self {
            Json::Bool(b) => Some(*b),
            _ => None,
        }
    }

    /// A number that is a non-negative integer below 2^64.
    pub fn as_u64(&self) -> (value: Option<u64>)
        ensures
            value == self@.as_u64(),
    {
        match self {
            Json::Number { unsigned, signed } => *unsigned,
            _ => None,
        }
    }

    /// A number that is an integer of 64 bits with a sign.
    pub fn as_i64(&self) -> (value: Option<i64>)
        ensures
            value == self@.as_i64(),
    {
        match self {
            Json::Number { unsigned, signed } => *signed,
            _ => None,
        }
    }

    /// The items of an array.
    pub fn as_array(&self) -> (items: Option<&Vec<Json>>)
        ensures
            items matches Some(v) ==> self@.as_array() == Some(items_view(v@)),
            items is None ==> self@.as_array() is None,
    {
        match self {
            Json::Array(v) => {
                Some(v)
            },
            _ => None,
        }
    }

    /// The members of an object.
    pub fn as_object(&self) -> (fields: Option<&Vec<(String, Json)>>)
        ensures
            fields matches Some(v) ==> self@.as_object() == Some(fields_view(v@)),
            fields is None ==> self@.as_object() is None,
    {
        match self {
            Json::Object(v) => Some(v),
            _ => None,
        }
    }

    pub fn is_null(&self) -> (null: bool)
        ensures
            null == self@.is_null(),
    {
        match self {
            Json::Null => true,
            _ => false,
        }
    }
}


/// The document that a text denotes: what `serde_json::from_str` makes of
/// it as a `serde_json::Value`, written as a [`JsonValue`]; `None` where the
/// text is no JSON document.
pub uninterp spec fn json_document(text: Seq<char>) -> Option<JsonValue>;

/// `serde_json::Value`, which is carried from the parser to the conversion
/// and looked into nowhere else.
#[verifier::external_type_specification]
#[verifier::external_body]
pub struct ExValue(serde_json::Value);

/// Writes a `serde_json::Value` as a [`Json`], variant by variant. A number
/// is read with `Number::as_u64` and `Number::as_i64`; the members of an
/// object come in the order in which `serde_json::Map` hands them out.
#[verifier::external_body]
fn json_of_value(value: serde_json::Value) -> (json: Json) {
    match value {
        serde_json::Value::Null => Json::Null,
        serde_json::Value::Bool(b) => Json::Bool(b),
        serde_json::Value::Number(n) => Json::Number { unsigned: n.as_u64(), signed: n.as_i64() },
        serde_json::Value::String(s) => Json::Str(s),
        serde_json::Value::Array(items) => Json::Array(items.into_iter().map(json_of_value).collect()),
        serde_json::Value::Object(fields) => Json::Object(
            fields.into_iter().map(|(k, v)| (k, json_of_value(v))).collect(),
        ),
    }
}

/// Calls `serde_json::from_str` for a `serde_json::Value`. The contract
/// claims that the outcome is the one that [`json_document`] names for the
/// text: a parse error gives `None`, a value is returned as a [`Json`].
#[verifier::external_body]
fn parse_document(text: &str) -> (doc: Option<Json>)
    ensures
        doc matches Some(j) ==> json_document(text@) == Some(j@),
        doc is None ==> json_document(text@) is None,
{
    serde_json::from_str::<serde_json::Value>(text).ok().map(json_of_value)
}

/// A digit of hexadecimal notation, in lower case.
pub open spec fn hex_digit(n: nat) -> char {
    if n == 0 {
        '0'
    } else if n == 1 {
        '1'
    } else if n == 2 {
        '2'
    } else if n == 3 {
        '3'
    } else if n == 4 {
        '4'
    } else if n == 5 {
        '5'
    } else if n == 6 {
        '6'
    } else if n == 7 {
        '7'
    } else if n == 8 {
        '8'
    } else if n == 9 {
        '9'
    } else if n == 10 {
        'a'
    } else if n == 11 {
        'b'
    } else if n == 12 {
        'c'
    } else if n == 13 {
        'd'
    } else if n == 14 {
        'e'
    } else {
        'f'
    }
}

/// One character as it stands inside a JSON string literal. The quote and
/// the backslash get a backslash in front; backspace, tab, line feed, form
/// feed and carriage return have their letter; any other character below
/// the space is written with its code in four hexadecimal digits; every
/// other character stands for itself.
pub open spec fn escaped_char(c: char) -> Seq<char> {
    if c == '"' {
        seq!['\\', '"']
    } else if c == '\\' {
        seq!['\\', '\\']
    } else if c == '\u{8}' {
        seq!['\\', 'b']
    } else if c == '\t' {
        seq!['\\', 't']
    } else if c == '\n' {
        seq!['\\', 'n']
    } else if c == '\u{c}' {
        seq!['\\', 'f']
    } else if c == '\r' {
        seq!['\\', 'r']
    } else if (c as u32) < 0x20 {
        seq!['\\', 'u', '0', '0', hex_digit((c as u32 / 16) as nat), hex_digit((c as u32 % 16) as nat)]
    } else {
        seq![c]
    }
}

/// A text as it stands inside a JSON string literal, character by
/// character.
pub open spec fn escaped(text: Seq<char>) -> Seq<char>
    decreases text.len(),
{
    if text.len() == 0 {
        Seq::empty()
    } else {
        escaped(text.drop_last()) + escaped_char(text.last())
    }
}

/// The JSON string literal for a text: the text between two quotes, with
/// its characters escaped.
pub open spec fn json_string_literal(text: Seq<char>) -> Seq<char> {
    seq!['"'] + escaped(text) + seq!['"']
}

/// Calls `serde_json::to_string` on a `str`. The contract claims that the
/// call succeeds, since a `str` is written into memory with nothing that can
/// refuse, and that the result is the text between quotes, escaped by the
/// table that [`escaped_char`] states.
#[verifier::external_body]
fn string_literal(text: &str) -> (quoted: Option<String>)
    ensures
        quoted is Some,
        quoted matches Some(s) ==> s@ == json_string_literal(text@),
{
    serde_json::to_string(text).ok()
}

/// Writes a text as a JSON string literal.
pub fn quote(text: &str) -> (quoted: String)
    ensures
        quoted@ == json_string_literal(text@),
{
    match string_literal(text) {
        Some(s) => s,
        None => String::new(),
    }
}

/// Parses a JSON text.
pub fn parse_json(text: &str) -> (doc: Option<Json>)
    ensures
        doc matches Some(j) ==> json_document(text@) == Some(j@),
        doc is None ==> json_document(text@) is None,
{
    parse_document(text)
}

} // verus!
