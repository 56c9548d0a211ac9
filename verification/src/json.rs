//! JSON documents as the collectors read them.

use vstd::prelude::*;

verus! {

/// A JSON value.
#[derive(Debug, PartialEq, Eq)]
pub enum Json {
    Null,
    Bool(bool),
    /// A number, kept as its decimal text.
    Number(String),
    Text(String),
    Array(Vec<Json>),
    /// The members of an object, in key order.
    Object(Vec<(String, Json)>),
}

/// `serde_json`'s own tree of a document. Nothing of it is seen here but
/// through `json_of`.
#[verifier::external_type_specification]
#[verifier::external_body]
pub struct ExValue(serde_json::Value);

/// What `serde_json::from_str` makes of a text: the document that it holds,
/// or the message of the error that it reports.
pub uninterp spec fn json_document(text: Seq<char>) -> Result<Json, String>;

/// What a `serde_json::Value` holds.
pub uninterp spec fn json_of(value: serde_json::Value) -> Json;

/// `serde_json::from_str` at `serde_json::Value`, an error turned into its
/// message by `to_string`. Not proved, but taken from `serde_json`: that the
/// outcome depends on the characters of `text` alone. It is `json_document`
/// of them, a value seen through `json_of`.
#[verifier::external_body]
fn value_from_text(text: &str) -> (parsed: Result<serde_json::Value, String>)
    ensures
        match parsed {
            Ok(value) => json_document(text@) == Ok::<Json, String>(json_of(value)),
            Err(message) => json_document(text@) == Err::<Json, String>(message),
        },
{
    serde_json::from_str::<serde_json::Value>(text).map_err(|error| error.to_string())
}

/// A `serde_json::Value` as a `Json`, variant for variant: `Null`, `Bool`,
/// `String` and `Array` as they are, a `Number` as the text that its
/// `to_string` gives, an `Object` as its members in the order in which
/// `serde_json::Map::into_iter` hands them out, which is by key. Not proved,
/// but taken from `serde_json`: that the result depends on the value alone.
/// It is `json_of` of it.
#[verifier::external_body]
fn json_from_value(value: serde_json::Value) -> (doc: Json)
    ensures
        doc == json_of(value),
{
    match value {
        serde_json::Value::Null => Json::Null,
        serde_json::Value::Bool(flag) => Json::Bool(flag),
        serde_json::Value::Number(number) => Json::Number(number.to_string()),
        serde_json::Value::String(text) => Json::Text(text),
        serde_json::Value::Array(items) => Json::Array(
            items.into_iter().map(json_from_value).collect(),
        ),
        serde_json::Value::Object(members) => Json::Object(
            members.into_iter().map(|(key, item)| (key, json_from_value(item))).collect(),
        ),
    }
}

/// Reads `text` as one JSON document.
pub fn parse_json(text: &str) -> (parsed: Result<Json, String>)
    ensures
        parsed == json_document(text@),
{
    match value_from_text(text) {
        Ok(value) => Ok(json_from_value(value)),
        Err(message) => Err(message),
    }
}

/// The members of an object.
pub type Members = Seq<(String, Json)>;

/// The value of the first member of `fields` named `key`.
pub open spec fn member(fields: Members, key: Seq<char>) -> Option<Json>
    decreases fields.len(),
{
    if fields.len() == 0 {
        None
    } else if fields[0].0@ == key {
        Some(fields[0].1)
    } else {
        member(fields.drop_first(), key)
    }
}

pub open spec fn missing_field(key: Seq<char>) -> Seq<char> {
    "missing field `"@ + key + "`"@
}

pub open spec fn object_of(doc: Json) -> Result<Members, Seq<char>> {
    match doc {
        Json::Object(fields) => Ok(fields@),
        _ => Err("invalid type: expected an object"@),
    }
}

pub open spec fn array_of(doc: Json) -> Result<Seq<Json>, Seq<char>> {
    match doc {
        Json::Array(items) => Ok(items@),
        _ => Err("invalid type: expected an array"@),
    }
}

pub open spec fn text_of(doc: Json) -> Result<Seq<char>, Seq<char>> {
    match doc {
        Json::Text(text) => Ok(text@),
        _ => Err("invalid type: expected a string"@),
    }
}

/// A member that must be there.
pub open spec fn required(fields: Members, key: Seq<char>) -> Result<Json, Seq<char>> {
    match member(fields, key) {
        Some(value) => Ok(value),
        None => Err(missing_field(key)),
    }
}

/// A member that must be there and hold a string.
pub open spec fn required_text(fields: Members, key: Seq<char>) -> Result<Seq<char>, Seq<char>> {
    match member(fields, key) {
        Some(value) => text_of(value),
        None => Err(missing_field(key)),
    }
}

/// A member that holds a string where it is there and not `null`.
pub open spec fn optional_text(fields: Members, key: Seq<char>) -> Result<
    Option<Seq<char>>,
    Seq<char>,
> {
    match member(fields, key) {
        None => Ok(None),
        Some(Json::Null) => Ok(None),
        Some(Json::Text(text)) => Ok(Some(text@)),
        Some(_) => Err("invalid type: expected a string or null"@),
    }
}

/// Every item is a string.
pub open spec fn all_text(items: Seq<Json>) -> bool {
    forall|i: int| 0 <= i < items.len() ==> (#[trigger] items[i]) is Text
}

/// A member that holds an array of strings where it is there.
pub open spec fn optional_text_list(fields: Members, key: Seq<char>) -> Result<(), Seq<char>> {
    match member(fields, key) {
        None => Ok(()),
        Some(Json::Array(items)) => if all_text(items@) {
            Ok(())
        } else {
            Err("invalid type: expected a string"@)
        },
        Some(_) => Err("invalid type: expected an array"@),
    }
}

impl Json {
    /// The members, where this is an object.
    pub fn as_object(&self) -> (fields: Result<&Vec<(String, Json)>, String>)
        ensures
            match fields {
                Ok(found) => object_of(*self) == Ok::<Members, Seq<char>>(found@),
                Err(message) => object_of(*self) == Err::<Members, Seq<char>>(message@),
            },
    {
        match self {
            Json::Object(fields) => Ok(fields),
            _ => Err("invalid type: expected an object".to_owned()),
        }
    }

    /// The items, where this is an array.
    pub fn as_array(&self) -> (items: Result<&Vec<Json>, String>)
        ensures
            match items {
                Ok(found) => array_of(*self) == Ok::<Seq<Json>, Seq<char>>(found@),
                Err(message) => array_of(*self) == Err::<Seq<Json>, Seq<char>>(message@),
            },
    {
        match self {
            Json::Array(items) => Ok(items),
            _ => Err("invalid type: expected an array".to_owned()),
        }
    }

    /// The text, where this is a string.
    pub fn as_text(&self) -> (text: Result<&String, String>)
        ensures
            match text {
                Ok(found) => text_of(*self) == Ok::<Seq<char>, Seq<char>>(found@),
                Err(message) => text_of(*self) == Err::<Seq<char>, Seq<char>>(message@),
            },
    {
        match self {
            Json::Text(text) => Ok(text),
            _ => Err("invalid type: expected a string".to_owned()),
        }
    }
}

/// The value of the first member of `fields` named `key`.
pub fn find_member<'a>(fields: &'a Vec<(String, Json)>, key: &str) -> (found: Option<&'a Json>)
    ensures
        match found {
            Some(value) => member(fields@, key@) == Some(*value),
            None => member(fields@, key@) is None,
        },
{
    let wanted = key.to_owned();
    let mut index: usize = 0;
    assert(fields@.skip(0) =~= fields@);
    while index < fields.len()
        invariant
            index <= fields.len(),
            wanted@ == key@,
            member(fields@.skip(index as int), key@) == member(fields@, key@),
        decreases fields.len() - index,
    {
        proof {
            let rest = fields@.skip(index as int);
            assert(rest[0] == fields@[index as int]);
            assert(rest.drop_first() =~= fields@.skip(index + 1));
        }
        if fields[index].0 == wanted {
            return Some(&fields[index].1);
        }
        index = index + 1;
    }
    None
}

pub fn missing_field_message(key: &str) -> (message: String)
    ensures
        message@ == missing_field(key@),
{
    let mut message = "missing field `".to_owned();
    message.append(key);
    message.append("`");
    message
}

pub fn find_required<'a>(fields: &'a Vec<(String, Json)>, key: &str) -> (found: Result<
    &'a Json,
    String,
>)
    ensures
        match found {
            Ok(value) => required(fields@, key@) == Ok::<Json, Seq<char>>(*value),
            Err(message) => required(fields@, key@) == Err::<Json, Seq<char>>(message@),
        },
{
    match find_member(fields, key) {
        Some(value) => Ok(value),
        None => Err(missing_field_message(key)),
    }
}

pub fn find_required_text<'a>(fields: &'a Vec<(String, Json)>, key: &str) -> (found: Result<
    &'a String,
    String,
>)
    ensures
        match found {
            Ok(text) => required_text(fields@, key@) == Ok::<Seq<char>, Seq<char>>(text@),
            Err(message) => required_text(fields@, key@) == Err::<Seq<char>, Seq<char>>(message@),
        },
{
    match find_member(fields, key) {
        Some(value) => value.as_text(),
        None => Err(missing_field_message(key)),
    }
}

pub fn find_optional_text<'a>(fields: &'a Vec<(String, Json)>, key: &str) -> (found: Result<
    Option<&'a String>,
    String,
>)
    ensures
        match found {
            Ok(text) => optional_text(fields@, key@) == Ok::<Option<Seq<char>>, Seq<char>>(
                text.deep_view(),
            ),
            Err(message) => optional_text(fields@, key@) == Err::<Option<Seq<char>>, Seq<char>>(
                message@,
            ),
        },
{
    match find_member(fields, key) {
        None => Ok(None),
        Some(Json::Null) => Ok(None),
        Some(Json::Text(text)) => Ok(Some(text)),
        Some(_) => Err("invalid type: expected a string or null".to_owned()),
    }
}

pub fn check_optional_text_list(fields: &Vec<(String, Json)>, key: &str) -> (checked: Result<
    (),
    String,
>)
    ensures
        match checked {
            Ok(_) => optional_text_list(fields@, key@) is Ok,
            Err(message) => optional_text_list(fields@, key@) == Err::<(), Seq<char>>(message@),
        },
{
    match find_member(fields, key) {
        None => Ok(()),
        Some(Json::Array(items)) => {
            let mut index: usize = 0;
            while index < items.len()
                invariant
                    index <= items.len(),
                    member(fields@, key@) == Some(Json::Array(*items)),
                    forall|i: int| 0 <= i < index ==> (#[trigger] items@[i]) is Text,
                decreases items.len() - index,
            {
                match &items[index] {
                    Json::Text(_) => {},
                    _ => {
                        assert(!(items@[index as int] is Text));
                        return Err("invalid type: expected a string".to_owned());
                    },
                }
                index = index + 1;
            }
            Ok(())
        },
        Some(_) => Err("invalid type: expected an array".to_owned()),
    }
}

} // verus!
