//! The fields of a JSON object, as far as the payload records read them.
//!
//! Parsing is done by the `serde_json` crate. What it gives for a text is
//! named by `json_object_fields`; the records are decoded from the fields by
//! verified code.

use crate::text::same_text;
use vstd::prelude::*;

verus! {

/// What a field of an object holds: a string, a number (with its value where
/// it is an unsigned integer of at most 64 bits), or anything else.
pub enum JsonValue {
    Text(String),
    Number(Option<u64>),
    Other,
}

/// A key of an object with what it holds.
pub struct JsonField {
    pub key: String,
    pub value: JsonValue,
}

/// The mathematical form of a `JsonValue`.
pub enum JsonScalar {
    Text(Seq<char>),
    Number(Option<u64>),
    Other,
}

impl View for JsonValue {
    type V = JsonScalar;

    open spec fn view(&self) -> JsonScalar {
        match self {
            JsonValue::Text(text) => JsonScalar::Text(text@),
            JsonValue::Number(number) => JsonScalar::Number(*number),
            JsonValue::Other => JsonScalar::Other,
        }
    }
}

impl View for JsonField {
    type V = (Seq<char>, JsonScalar);

    open spec fn view(&self) -> (Seq<char>, JsonScalar) {
        (self.key@, self.value@)
    }
}

/// The mathematical form of a list of fields.
pub open spec fn fields_view(fields: Seq<JsonField>) -> Seq<(Seq<char>, JsonScalar)> {
    fields.map_values(|field: JsonField| field@)
}

/// The fields that `serde_json` reads from a text, where the text is one JSON
/// object and nothing else; `None` for any other text.
pub uninterp spec fn json_object_fields(raw: Seq<char>) -> Option<Seq<(Seq<char>, JsonScalar)>>;

/// Calls `serde_json::from_str` for a `serde_json::Map`, which fails unless
/// the text is one JSON object, and hands out the entries of the map. A string
/// becomes `Text`, a number becomes `Number` with what `Number::as_u64` gives
/// for it, every other value becomes `Other`. The contract only names the
/// result.
#[verifier::external_body]
pub(crate) fn parse_json_object(raw: &str) -> (fields: Option<Vec<JsonField>>)
    ensures
        match fields {
            Some(list) => json_object_fields(raw@) == Some(fields_view(list@)),
            None => json_object_fields(raw@) is None,
        },
{
    let object: serde_json::Map<String, serde_json::Value> = serde_json::from_str(raw).ok()?;
    Some(object.into_iter().map(|(key, value)| JsonField {
        key,
        value: match value {
            serde_json::Value::String(text) => JsonValue::Text(text),
            serde_json::Value::Number(number) => JsonValue::Number(number.as_u64()),
            _ => JsonValue::Other,
        },
    }).collect())
}

/// What the first field with the given key holds.
pub open spec fn lookup(fields: Seq<(Seq<char>, JsonScalar)>, key: Seq<char>) -> Option<JsonScalar>
    decreases fields.len(),
{
    if fields.len() == 0 {
        None
    } else if fields[0].0 == key {
        Some(fields[0].1)
    } else {
        lookup(fields.drop_first(), key)
    }
}

/// The string that the first field with the given key holds, if it is one.
pub open spec fn lookup_text(fields: Seq<(Seq<char>, JsonScalar)>, key: Seq<char>) -> Option<Seq<char>> {
    match lookup(fields, key) {
        Some(JsonScalar::Text(text)) => Some(text),
        _ => None,
    }
}

/// The unsigned integer that the first field with the given key holds, if it
/// is one.
pub open spec fn lookup_unsigned(fields: Seq<(Seq<char>, JsonScalar)>, key: Seq<char>) -> Option<u64> {
    match lookup(fields, key) {
        Some(JsonScalar::Number(Some(number))) => Some(number),
        _ => None,
    }
}

/// Whether every field's key is one of `keys`.
pub open spec fn only_keys(fields: Seq<(Seq<char>, JsonScalar)>, keys: Seq<Seq<char>>) -> bool {
    forall|i: int| 0 <= i < fields.len() ==> keys.contains(#[trigger] fields[i].0)
}

/// The index of the first field with the given key.
fn find(fields: &Vec<JsonField>, key: &str) -> (at: Option<usize>)
    ensures
        match at {
            Some(i) => i < fields.len() && lookup(fields_view(fields@), key@) == Some(fields[i as int].value@),
            None => lookup(fields_view(fields@), key@) is None,
        },
{
    let mut i: usize = 0;
    proof {
        assert(fields_view(fields@).skip(0) =~= fields_view(fields@));
    }
    while i < fields.len()
        invariant
            i <= fields.len(),
            lookup(fields_view(fields@), key@) == lookup(fields_view(fields@).skip(i as int), key@),
        decreases fields.len() - i,
    {
        let ghost rest = fields_view(fields@).skip(i as int);
        proof {
            assert(rest.drop_first() =~= fields_view(fields@).skip(i + 1));
        }
        if same_text(fields[i].key.as_str(), key) {
            return Some(i);
        }
        i = i + 1;
    }
    None
}

/// The string under `key`, if the first field with that key holds one.
pub fn find_text(fields: &Vec<JsonField>, key: &str) -> (text: Option<String>)
    ensures
        match text {
            Some(found) => lookup_text(fields_view(fields@), key@) == Some(found@),
            None => lookup_text(fields_view(fields@), key@) is None,
        },
{
    match find(fields, key) {
        Some(i) => match &fields[i].value {
            JsonValue::Text(text) => Some(text.clone()),
            _ => None,
        },
        None => None,
    }
}

/// The unsigned integer under `key`, if the first field with that key holds one.
pub fn find_unsigned(fields: &Vec<JsonField>, key: &str) -> (number: Option<u64>)
    ensures
        number == lookup_unsigned(fields_view(fields@), key@),
{
    match find(fields, key) {
        Some(i) => match &fields[i].value {
            JsonValue::Number(Some(number)) => Some(*number),
            _ => None,
        },
        None => None,
    }
}

/// The characters of each key.
pub open spec fn key_texts(keys: Seq<&str>) -> Seq<Seq<char>> {
    keys.map_values(|key: &str| key@)
}

/// Whether every field's key is one of `keys`.
pub fn has_only_keys(fields: &Vec<JsonField>, keys: &Vec<&str>) -> (only: bool)
    ensures
        only == only_keys(fields_view(fields@), key_texts(keys@)),
{
    let mut i: usize = 0;
    while i < fields.len()
        invariant
            i <= fields.len(),
            forall|k: int| 0 <= k < i ==> key_texts(keys@).contains(#[trigger] fields_view(fields@)[k].0),
        decreases fields.len() - i,
    {
        let mut j: usize = 0;
        let mut known = false;
        while j < keys.len()
            invariant
                j <= keys.len(),
                i < fields.len(),
                known == exists|k: int| 0 <= k < j && key_texts(keys@)[k] == fields[i as int].key@,
            decreases keys.len() - j,
        {
            if same_text(fields[i].key.as_str(), keys[j]) {
                known = true;
                proof {
                    assert(key_texts(keys@)[j as int] == fields[i as int].key@);
                }
            }
            j = j + 1;
        }
        if !known {
            proof {
                assert(fields_view(fields@)[i as int].0 == fields[i as int].key@);
            }
            return false;
        }
        i = i + 1;
    }
    true
}

} // verus!
