//! JSON documents as a value of the library's own, read with `serde_json`.

use crate::text::same_text;
use vstd::prelude::*;
use vstd::string::*;

verus! {

/// A JSON value. An object lists its members in the order in which the
/// reader hands them over; a number is kept as the text that writes it.
#[derive(Debug)]
pub enum Json {
    Null,
    Bool(bool),
    Number(String),
    Str(String),
    Array(Vec<Json>),
    Object(Vec<(String, Json)>),
}

/// A JSON value as plain values.
pub ghost enum JsonView {
    Null,
    Bool(bool),
    Number(Seq<char>),
    Str(Seq<char>),
    Array(Seq<JsonView>),
    Object(Seq<(Seq<char>, JsonView)>),
}

/// The view of a JSON value, member by member and item by item.
pub open spec fn json_view(value: Json) -> JsonView
    decreases value,
{
    match value {
        Json::Null => JsonView::Null,
        Json::Bool(b) => JsonView::Bool(b),
        Json::Number(n) => JsonView::Number(n@),
        Json::Str(s) => JsonView::Str(s@),
        Json::Array(items) => JsonView::Array(
            Seq::new(
                items.len() as nat,
                |i: int|
                    if 0 <= i < items.len() {
                        json_view(items[i])
                    } else {
                        JsonView::Null
                    },
            ),
        ),
        Json::Object(members) => JsonView::Object(
            Seq::new(
                members.len() as nat,
                |i: int|
                    if 0 <= i < members.len() {
                        (members[i].0@, json_view(members[i].1))
                    } else {
                        (Seq::empty(), JsonView::Null)
                    },
            ),
        ),
    }
}

impl View for Json {
    type V = JsonView;

    open spec fn view(&self) -> JsonView {
        json_view(*self)
    }
}

/// The value of the first member called `key`, from position `from` on.
pub open spec fn member_from(members: Seq<(Seq<char>, JsonView)>, key: Seq<char>, from: int) -> Option<
    JsonView,
>
    decreases members.len() - from,
{
    if from < 0 || from >= members.len() {
        None
    } else if members[from].0 == key {
        Some(members[from].1)
    } else {
        member_from(members, key, from + 1)
    }
}

impl JsonView {
    /// The member called `key` of an object; `Null` where the value is no
    /// object or has no such member.
    pub open spec fn field(self, key: Seq<char>) -> JsonView {
        match self {
            JsonView::Object(members) => match member_from(members, key, 0) {
                Some(value) => value,
                None => JsonView::Null,
            },
            _ => JsonView::Null,
        }
    }

    /// The text of a string value.
    pub open spec fn text(self) -> Option<Seq<char>> {
        match self {
            JsonView::Str(s) => Some(s),
            _ => None,
        }
    }

    /// The text of a string value, or `default` where the value is no string.
    pub open spec fn text_or(self, default: Seq<char>) -> Seq<char> {
        match self {
            JsonView::Str(s) => s,
            _ => default,
        }
    }

    /// The members of an object.
    pub open spec fn members(self) -> Option<Seq<(Seq<char>, JsonView)>> {
        match self {
            JsonView::Object(members) => Some(members),
            _ => None,
        }
    }

    /// The items of an array.
    pub open spec fn items(self) -> Option<Seq<JsonView>> {
        match self {
            JsonView::Array(items) => Some(items),
            _ => None,
        }
    }
}

impl Json {
    /// The member called `key` of an object.
    pub fn field(&self, key: &str) -> (r: Option<&Json>)
        ensures
            match r {
                Some(value) => value@ == self@.field(key@),
                None => self@.field(key@) == JsonView::Null,
            },
    {
        match self {
            Json::Object(members) => {
                let mut i: usize = 0;
                while i < members.len()
                    invariant
                        i <= members.len(),
                        self@ is Object,
                        self@->Object_0.len() == members.len(),
                        forall|j: int|
                            0 <= j < members.len() ==> #[trigger] self@->Object_0[j] == (
                                members[j].0@,
                                members[j].1@,
                            ),
                        member_from(self@->Object_0, key@, 0) == member_from(
                            self@->Object_0,
                            key@,
                            i as int,
                        ),
                    decreases members.len() - i,
                {
                    if same_text(members[i].0.as_str(), key) {
                        return Some(&members[i].1);
                    }
                    i += 1;
                }
                None
            },
            _ => None,
        }
    }

    /// The text of a string value.
    pub fn text(&self) -> (r: Option<&str>)
        ensures
            match r {
                Some(s) => self@.text() == Some(s@),
                None => self@.text() is None,
            },
    {
        match self {
            Json::Str(s) => Some(s.as_str()),
            _ => None,
        }
    }

    /// The text of the member called `key`, where it is a string.
    pub fn text_of(&self, key: &str) -> (r: Option<&str>)
        ensures
            match r {
                Some(s) => self@.field(key@).text() == Some(s@),
                None => self@.field(key@).text() is None,
            },
    {
        match self.field(key) {
            Some(value) => value.text(),
            None => None,
        }
    }

    /// The text of the member called `key`, or `default` where the value
    /// has no such member or it is no string.
    pub fn text_or(&self, key: &str, default: &str) -> (r: String)
        ensures
            r@ == self@.field(key@).text_or(default@),
    {
        match self.text_of(key) {
            Some(s) => String::from_str(s),
            None => String::from_str(default),
        }
    }

    /// The members of the member called `key`, where it is an object.
    pub fn members_of(&self, key: &str) -> (r: Option<&Vec<(String, Json)>>)
        ensures
            match r {
                Some(members) => {
                    &&& self@.field(key@).members() is Some
                    &&& self@.field(key@).members()->0.len() == members.len()
                    &&& forall|j: int|
                        0 <= j < members.len() ==> #[trigger] self@.field(key@).members()->0[j] == (
                            members[j].0@,
                            members[j].1@,
                        )
                },
                None => self@.field(key@).members() is None,
            },
    {
        match self.field(key) {
            Some(Json::Object(members)) => Some(members),
            _ => None,
        }
    }

    /// The items of the member called `key`, where it is an array.
    pub fn items_of(&self, key: &str) -> (r: Option<&Vec<Json>>)
        ensures
            match r {
                Some(items) => {
                    &&& self@.field(key@).items() is Some
                    &&& self@.field(key@).items()->0.len() == items.len()
                    &&& forall|j: int|
                        0 <= j < items.len() ==> #[trigger] self@.field(key@).items()->0[j]
                            == items[j]@
                },
                None => self@.field(key@).items() is None,
            },
    {
        match self.field(key) {
            Some(Json::Array(items)) => Some(items),
            _ => None,
        }
    }
}

/// The view of a value that may be missing; a missing value counts as `Null`.
pub open spec fn view_or_null(value: Option<&Json>) -> JsonView {
    match value {
        Some(v) => v@,
        None => JsonView::Null,
    }
}

/// Steps from a value that may be missing to its member called `key`.
pub fn descend<'a>(from: Option<&'a Json>, key: &str) -> (r: Option<&'a Json>)
    ensures
        view_or_null(r) == view_or_null(from).field(key@),
{
    match from {
        Some(value) => value.field(key),
        None => None,
    }
}

/// What `serde_json` makes of `text`, where `text` is one JSON document; in
/// an object the members stand in the order in which `serde_json` keeps them.
/// `None` where `text` is no JSON document.
pub uninterp spec fn json_document(text: Seq<char>) -> Option<JsonView>;

#[verifier::external_type_specification]
#[verifier::external_body]
pub struct ExJsonError(serde_json::Error);

#[verifier::external_type_specification]
#[verifier::external_body]
pub struct ExJsonValue(serde_json::Value);

/// Copies a `serde_json::Value` into a value of the library, variant by
/// variant; a number is written out with its `Display`.
///
/// Trusted: nothing is claimed of the copy here. `parse_document` is the
/// one caller, and names what it returns.
#[verifier::external_body]
pub(crate) fn copy_value(value: &serde_json::Value) -> Json {
    match value {
        serde_json::Value::Null => Json::Null,
        serde_json::Value::Bool(b) => Json::Bool(*b),
        serde_json::Value::Number(n) => Json::Number(n.to_string()),
        serde_json::Value::String(s) => Json::Str(s.clone()),
        serde_json::Value::Array(a) => Json::Array(a.iter().map(copy_value).collect()),
        serde_json::Value::Object(m) => Json::Object(
            m.iter().map(|(k, v)| (k.clone(), copy_value(v))).collect(),
        ),
    }
}

/// Reads `text` with `serde_json::from_str` as a `serde_json::Value`.
///
/// Trusted: the call succeeds exactly where `text` is a JSON document, and
/// the value then is the named `json_document` of `text`. Reading depends on
/// nothing but the text.
#[verifier::external_body]
pub(crate) fn parse_document(text: &str) -> (r: Result<Json, serde_json::Error>)
    ensures
        r is Ok <==> json_document(text@) is Some,
        r matches Ok(value) ==> Some(value@) == json_document(text@),
{
    serde_json::from_str::<serde_json::Value>(text).map(|value| copy_value(&value))
}

/// Writes out a reading error with its `Display`.
///
/// Trusted: the wording is `serde_json`'s own, and nothing is claimed of it.
#[verifier::external_body]
pub(crate) fn describe_error(error: &serde_json::Error) -> String {
    error.to_string()
}

/// Reads one JSON document. Where `text` is none, the error says what
/// `serde_json` found wrong with it.
pub fn parse(text: &str) -> (r: Result<Json, String>)
    ensures
        r is Ok <==> json_document(text@) is Some,
        r matches Ok(value) ==> Some(value@) == json_document(text@),
{
    match parse_document(text) {
        Ok(value) => Ok(value),
        Err(error) => Err(describe_error(&error)),
    }
}

} // verus!
