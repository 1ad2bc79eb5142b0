//! JSON values as the library reads them, the parsing of JSON text and the
//! writing of JSON text, both done by `serde_json`.

use vstd::prelude::*;
use crate::text::same_text;

verus! {

/// A JSON number as `serde_json` read it: its value when it is an integer
/// that fits in an `i64`, its text as `serde_json` writes it, and the number
/// itself, which is written back as it was read. Only a parse makes one.
pub struct JsonNumber {
    as_i64: Option<i64>,
    text: String,
    number: serde_json::Number,
}

impl View for JsonNumber {
    type V = (Option<i64>, Seq<char>);

    closed spec fn view(&self) -> (Option<i64>, Seq<char>) {
        (self.as_i64, self.text@)
    }
}

impl JsonNumber {
    /// The value, when the number is an integer that fits in an `i64`.
    pub fn as_i64(&self) -> (r: Option<i64>)
        ensures
            r == self@.0,
    {
        self.as_i64
    }

    /// The text of the number, as `serde_json` writes it.
    pub fn text(&self) -> (r: &String)
        ensures
            r@ == self@.1,
    {
        &self.text
    }
}

/// One member of a JSON object.
pub struct JsonMember {
    pub key: String,
    pub value: Json,
}

/// A JSON value. The members of an object stand in the order in which
/// `serde_json` holds them.
pub enum Json {
    Null,
    Bool(bool),
    Number(JsonNumber),
    Str(String),
    Array(Vec<Json>),
    Object(Vec<JsonMember>),
}

/// The mathematical form of a JSON value.
pub enum JsonV {
    Null,
    Bool(bool),
    /// The value as an `i64` where it is one, and the text of the number.
    Number(Option<i64>, Seq<char>),
    Str(Seq<char>),
    Array(Seq<JsonV>),
    Object(Seq<(Seq<char>, JsonV)>),
}

/// The mathematical form of `j`.
pub open spec fn json_view(j: Json) -> JsonV
    decreases j,
{
    match j {
        Json::Null => JsonV::Null,
        Json::Bool(b) => JsonV::Bool(b),
        Json::Number(n) => JsonV::Number(n@.0, n@.1),
        Json::Str(s) => JsonV::Str(s@),
        Json::Array(items) => JsonV::Array(
            Seq::new(
                items@.len(),
                |i: int|
                    if 0 <= i < items@.len() {
                        json_view(items@[i])
                    } else {
                        JsonV::Null
                    },
            ),
        ),
        Json::Object(members) => JsonV::Object(
            Seq::new(
                members@.len(),
                |i: int|
                    if 0 <= i < members@.len() {
                        (members@[i].key@, json_view(members@[i].value))
                    } else {
                        (Seq::empty(), JsonV::Null)
                    },
            ),
        ),
    }
}

impl View for Json {
    type V = JsonV;

    open spec fn view(&self) -> JsonV {
        json_view(*self)
    }
}

/// The value of the first member named `key`.
pub open spec fn lookup(members: Seq<(Seq<char>, JsonV)>, key: Seq<char>) -> Option<JsonV>
    decreases members.len(),
{
    if members.len() == 0 {
        None
    } else if members[0].0 == key {
        Some(members[0].1)
    } else {
        lookup(members.skip(1), key)
    }
}

/// The member `key` of an object; nothing for any other value.
pub open spec fn get(j: JsonV, key: Seq<char>) -> Option<JsonV> {
    match j {
        JsonV::Object(members) => lookup(members, key),
        _ => None,
    }
}

/// The items of an array.
pub open spec fn as_array(j: JsonV) -> Option<Seq<JsonV>> {
    match j {
        JsonV::Array(items) => Some(items),
        _ => None,
    }
}

/// The members of an object.
pub open spec fn as_object(j: JsonV) -> Option<Seq<(Seq<char>, JsonV)>> {
    match j {
        JsonV::Object(members) => Some(members),
        _ => None,
    }
}

/// The text of a string.
pub open spec fn as_str(j: JsonV) -> Option<Seq<char>> {
    match j {
        JsonV::Str(s) => Some(s),
        _ => None,
    }
}

/// The value of an integer that fits in an `i64`.
pub open spec fn as_i64(j: JsonV) -> Option<i64> {
    match j {
        JsonV::Number(n, _) => n,
        _ => None,
    }
}

/// The value of a boolean.
pub open spec fn as_bool(j: JsonV) -> Option<bool> {
    match j {
        JsonV::Bool(b) => Some(b),
        _ => None,
    }
}

/// A JSON value seen through an optional reference.
pub open spec fn opt_view(r: Option<&Json>) -> Option<JsonV> {
    match r {
        Some(v) => Some(v@),
        None => None,
    }
}

/// The member `key` of `j` when `j` is an object, as `Value::get`.
pub fn get_member<'a>(j: &'a Json, key: &str) -> (r: Option<&'a Json>)
    ensures
        opt_view(r) == get(j@, key@),
{
    match j {
        Json::Object(members) => {
            let ghost ms = j@->Object_0;
            let mut i: usize = 0;
            assert(ms.skip(0) =~= ms);
            while i < members.len()
                invariant
                    0 <= i <= members.len(),
                    get(j@, key@) == lookup(ms, key@),
                    ms.len() == members@.len(),
                    forall|k: int|
                        0 <= k < members@.len() ==> #[trigger] ms[k] == (
                        members@[k].key@,
                        members@[k].value@,
                    ),
                    lookup(ms.skip(i as int), key@) == lookup(ms, key@),
                decreases members.len() - i,
            {
                assert(ms.skip(i as int)[0] == ms[i as int]);
                assert(ms.skip(i as int).skip(1) =~= ms.skip(i + 1));
                if same_text(members[i].key.as_str(), key) {
                    return Some(&members[i].value);
                }
                i = i + 1;
            }
            assert(ms.skip(i as int) =~= Seq::<(Seq<char>, JsonV)>::empty());
            None
        },
        _ => None,
    }
}

/// The items of `j` when it is an array, as `Value::as_array`.
pub fn array_items(j: &Json) -> (r: Option<&Vec<Json>>)
    ensures
        match r {
            Some(items) => as_array(j@) == Some(
                Seq::new(items@.len(), |i: int| items@[i]@),
            ) && items@.len() == as_array(j@)->0.len(),
            None => as_array(j@) is None,
        },
{
    match j {
        Json::Array(items) => {
            assert(j@->Array_0 =~= Seq::new(items@.len(), |i: int| items@[i]@));
            Some(items)
        },
        _ => None,
    }
}

/// The members of `j` when it is an object, as `Value::as_object`.
pub fn object_members(j: &Json) -> (r: Option<&Vec<JsonMember>>)
    ensures
        match r {
            Some(members) => as_object(j@) == Some(
                Seq::new(members@.len(), |i: int| (members@[i].key@, members@[i].value@)),
            ),
            None => as_object(j@) is None,
        },
{
    match j {
        Json::Object(members) => {
            assert(j@->Object_0 =~= Seq::new(
                members@.len(),
                |i: int| (members@[i].key@, members@[i].value@),
            ));
            Some(members)
        },
        _ => None,
    }
}

/// The text of `j` when it is a string, as `Value::as_str`.
pub fn string_value(j: &Json) -> (r: Option<&String>)
    ensures
        match r {
            Some(s) => as_str(j@) == Some(s@),
            None => as_str(j@) is None,
        },
{
    match j {
        Json::Str(s) => Some(s),
        _ => None,
    }
}

/// The value of `j` when it is an integer that fits in an `i64`, as
/// `Value::as_i64`.
pub fn i64_value(j: &Json) -> (r: Option<i64>)
    ensures
        r == as_i64(j@),
{
    match j {
        Json::Number(n) => n.as_i64(),
        _ => None,
    }
}

/// The value of `j` when it is a boolean, as `Value::as_bool`.
pub fn bool_value(j: &Json) -> (r: Option<bool>)
    ensures
        r == as_bool(j@),
{
    match j {
        Json::Bool(b) => Some(*b),
        _ => None,
    }
}

// ---------------------------------------------------------------------------
// serde_json
// ---------------------------------------------------------------------------

#[verifier::external_type_specification]
#[verifier::external_body]
pub struct ExValue(serde_json::Value);

#[verifier::external_type_specification]
#[verifier::external_body]
pub struct ExNumber(serde_json::Number);

/// What `serde_json` reads from a text: the value, or the text of its error.
pub uninterp spec fn json_parse(text: Seq<char>) -> Result<JsonV, Seq<char>>;

/// What `serde_json` writes for a value, in its compact form.
pub uninterp spec fn json_text(j: JsonV) -> Seq<char>;

/// Calls `serde_json::from_str::<serde_json::Value>` and, on failure, the
/// `Display` of its error; the value is carried over variant by variant. The
/// contract names the outcome after the text alone; what JSON grammar
/// `serde_json` accepts is not restated here.
#[verifier::external_body]
pub(crate) fn parse_json(text: &str) -> (r: Result<Json, String>)
    ensures
        match r {
            Ok(j) => json_parse(text@) == Ok::<JsonV, Seq<char>>(j@),
            Err(e) => json_parse(text@) == Err::<JsonV, Seq<char>>(e@),
        },
{
    match serde_json::from_str::<serde_json::Value>(text) {
        Ok(v) => Ok(from_value(v)),
        Err(e) => Err(e.to_string()),
    }
}

/// Calls `serde_json::to_string` on the value carried back into a
/// `serde_json::Value`, each number as the `serde_json::Number` that was read.
/// `serde_json` writes a number as its `Display` gives it, which is the text
/// the view holds, so the contract names the text after the view alone.
#[verifier::external_body]
pub(crate) fn write_json(j: &Json) -> (s: String)
    ensures
        s@ == json_text(j@),
{
    serde_json::to_string(&to_value(j)).unwrap_or_default()
}

/// Carries a `serde_json::Value` over into a `Json`, variant by variant.
#[verifier::external_body]
fn from_value(v: serde_json::Value) -> Json {
    match v {
        serde_json::Value::Null => Json::Null,
        serde_json::Value::Bool(b) => Json::Bool(b),
        serde_json::Value::Number(n) => Json::Number(
            JsonNumber { as_i64: n.as_i64(), text: n.to_string(), number: n },
        ),
        serde_json::Value::String(s) => Json::Str(s),
        serde_json::Value::Array(a) => Json::Array(a.into_iter().map(from_value).collect()),
        serde_json::Value::Object(m) => Json::Object(
            m.into_iter().map(|(key, value)| JsonMember { key, value: from_value(value) }).collect(),
        ),
    }
}

/// Carries a `Json` back into a `serde_json::Value`, variant by variant, each
/// number as the `serde_json::Number` it was read as.
#[verifier::external_body]
fn to_value(j: &Json) -> serde_json::Value {
    match j {
        Json::Null => serde_json::Value::Null,
        Json::Bool(b) => serde_json::Value::Bool(*b),
        Json::Number(n) => serde_json::Value::Number(n.number.clone()),
        Json::Str(s) => serde_json::Value::String(s.clone()),
        Json::Array(a) => serde_json::Value::Array(a.iter().map(to_value).collect()),
        Json::Object(m) => serde_json::Value::Object(
            m.iter().map(|member| (member.key.clone(), to_value(&member.value))).collect(),
        ),
    }
}

} // verus!
