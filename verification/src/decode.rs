//! Reading the records of the session service out of parsed documents.

use crate::json::{items_view, lemma_items_view, Json, JsonValue};
use vstd::prelude::*;
use vstd::string::StringExecFns;

verus! {

/// A record that can be read out of a document.
pub trait FromJson: Sized + DeepView {
    /// The record that a document denotes; `None` where the document has
    /// not the record's shape.
    spec fn of_json(json: JsonValue) -> Option<<Self as DeepView>::V>;

    /// Reads the record out of a document.
    fn from_json(json: &Json) -> (decoded: Option<Self>)
        ensures
            decoded matches Some(x) ==> Self::of_json(json@) == Some(x.deep_view()),
            decoded is None ==> Self::of_json(json@) is None,
    ;
}

/// The member `name` as a text: it is there and is a string.
pub open spec fn text_member(obj: JsonValue, name: Seq<char>) -> Option<Seq<char>> {
    match obj.get(name) {
        Some(value) => value.as_str(),
        None => None,
    }
}

/// The member `name` as a text that may be left out: a member that is
/// missing or null is no text, a string is one, and anything else does not
/// fit.
pub open spec fn optional_text_member(obj: JsonValue, name: Seq<char>) -> Option<
    Option<Seq<char>>,
> {
    match obj.get(name) {
        None => Some(None),
        Some(value) => if value.is_null() {
            Some(None)
        } else {
            match value.as_str() {
                Some(text) => Some(Some(text)),
                None => None,
            }
        },
    }
}

/// The member `name` as an integer from `low` to `high`.
pub open spec fn integer_member(obj: JsonValue, name: Seq<char>, low: int, high: int) -> Option<
    int,
> {
    match obj.get(name) {
        Some(value) => match value.as_i64() {
            Some(n) => if low <= n <= high {
                Some(n as int)
            } else {
                None
            },
            None => None,
        },
        None => None,
    }
}

/// The records that a sequence of documents denotes: each document has to
/// denote one.
pub open spec fn decoded_items<T: FromJson>(items: Seq<JsonValue>) -> Option<
    Seq<<T as DeepView>::V>,
> {
    if forall|i: int| 0 <= i < items.len() ==> (#[trigger] T::of_json(items[i])) is Some {
        Some(Seq::new(items.len(), |i: int| T::of_json(items[i]).unwrap()))
    } else {
        None
    }
}

/// The member `name` as an array of records.
pub open spec fn array_member<T: FromJson>(obj: JsonValue, name: Seq<char>) -> Option<
    Seq<<T as DeepView>::V>,
> {
    match obj.get(name) {
        Some(value) => match value.as_array() {
            Some(items) => decoded_items::<T>(items),
            None => None,
        },
        None => None,
    }
}

/// The member `name` as a record.
pub open spec fn record_member<T: FromJson>(obj: JsonValue, name: Seq<char>) -> Option<
    <T as DeepView>::V,
> {
    match obj.get(name) {
        Some(value) => T::of_json(value),
        None => None,
    }
}

/// Reads the member `name` as a text.
pub fn text_field(obj: &Json, name: &str) -> (text: Option<String>)
    ensures
        text matches Some(s) ==> text_member(obj@, name@) == Some(s@),
        text is None ==> text_member(obj@, name@) is None,
{
    match obj.get(name) {
        Some(value) => match value.as_str() {
            Some(s) => Some(String::from_str(s)),
            None => None,
        },
        None => None,
    }
}

/// Reads the member `name` as a text that may be left out.
pub fn optional_text_field(obj: &Json, name: &str) -> (text: Option<Option<String>>)
    ensures
        text matches Some(t) ==> optional_text_member(obj@, name@) == Some(t.deep_view()),
        text is None ==> optional_text_member(obj@, name@) is None,
{
    match obj.get(name) {
        None => Some(None),
        Some(value) => if value.is_null() {
            Some(None)
        } else {
            match value.as_str() {
                Some(s) => Some(Some(String::from_str(s))),
                None => None,
            }
        },
    }
}

/// Reads the member `name` as an index of 32 bits: an integer from 0 up.
pub fn index32_field(obj: &Json, name: &str) -> (number: Option<i32>)
    ensures
        number matches Some(n) ==> integer_member(obj@, name@, 0, i32::MAX as int) == Some(
            n as int,
        ),
        number is None ==> integer_member(obj@, name@, 0, i32::MAX as int) is None,
{
    match obj.get(name) {
        Some(value) => match value.as_i64() {
            Some(n) => if 0 <= n && n <= 2147483647 {
                Some(n as i32)
            } else {
                None
            },
            None => None,
        },
        None => None,
    }
}

/// Reads the member `name` as an index of 8 bits: an integer from 0 up.
pub fn index8_field(obj: &Json, name: &str) -> (number: Option<i8>)
    ensures
        number matches Some(n) ==> integer_member(obj@, name@, 0, i8::MAX as int) == Some(
            n as int,
        ),
        number is None ==> integer_member(obj@, name@, 0, i8::MAX as int) is None,
{
    match obj.get(name) {
        Some(value) => match value.as_i64() {
            Some(n) => if 0 <= n && n <= 127 {
                Some(n as i8)
            } else {
                None
            },
            None => None,
        },
        None => None,
    }
}

/// Reads one record out of each document of a sequence.
pub fn items_from_json<T: FromJson>(items: &Vec<Json>) -> (decoded: Option<Vec<T>>)
    ensures
        decoded matches Some(v) ==> decoded_items::<T>(items_view(items@)) == Some(v.deep_view()),
        decoded is None ==> decoded_items::<T>(items_view(items@)) is None,
{
    let ghost docs = items_view(items@);
    proof {
        lemma_items_view(items@);
    }
    let mut out: Vec<T> = Vec::new();
    let mut i: usize = 0;
    while i < items.len()
        invariant
            i <= items@.len(),
            docs == items_view(items@),
            docs.len() == items@.len(),
            forall|k: int| 0 <= k < items@.len() ==> #[trigger] docs[k] == items@[k]@,
            out@.len() == i,
            forall|k: int|
                0 <= k < i ==> T::of_json(docs[k]) == Some((#[trigger] out@[k]).deep_view()),
        decreases items@.len() - i,
    {
        match T::from_json(&items[i]) {
            Some(x) => {
                out.push(x);
            },
            None => {
                assert(T::of_json(docs[i as int]) is None);
                return None;
            },
        }
        i = i + 1;
    }
    proof {
        assert forall|k: int| 0 <= k < docs.len() implies (#[trigger] T::of_json(docs[k])) is Some by {
            assert(T::of_json(docs[k]) == Some(out@[k].deep_view()));
        }
        assert(out.deep_view() =~= Seq::new(docs.len(), |k: int| T::of_json(docs[k]).unwrap()));
    }
    Some(out)
}

/// Reads the member `name` as an array of records.
pub fn array_field<T: FromJson>(obj: &Json, name: &str) -> (decoded: Option<Vec<T>>)
    ensures
        decoded matches Some(v) ==> array_member::<T>(obj@, name@) == Some(v.deep_view()),
        decoded is None ==> array_member::<T>(obj@, name@) is None,
{
    match obj.get(name) {
        Some(value) => match value.as_array() {
            Some(items) => items_from_json::<T>(items),
            None => None,
        },
        None => None,
    }
}

/// Reads the member `name` as a record.
pub fn record_field<T: FromJson>(obj: &Json, name: &str) -> (decoded: Option<T>)
    ensures
        decoded matches Some(x) ==> record_member::<T>(obj@, name@) == Some(x.deep_view()),
        decoded is None ==> record_member::<T>(obj@, name@) is None,
{
    match obj.get(name) {
        Some(value) => T::from_json(value),
        None => None,
    }
}

impl FromJson for String {
    open spec fn of_json(json: JsonValue) -> Option<Seq<char>> {
        json.as_str()
    }

    fn from_json(json: &Json) -> (decoded: Option<String>) {
        match json.as_str() {
            Some(s) => Some(String::from_str(s)),
            None => None,
        }
    }
}

} // verus!
