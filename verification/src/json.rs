//! JSON documents: what a `serde_json::Value` holds, and the few operations on
//! it that the gateway needs.
use vstd::prelude::*;
use vstd::utf8::encode_utf8;

verus! {

/// A JSON document of the `serde_json` crate.
#[verifier::external_type_specification]
#[verifier::external_body]
pub struct ExValue(serde_json::Value);

/// What a JSON document says. An object is a map, so the order in which its
/// members were written is not part of it. A number that is no integer is known
/// by the bits of its double.
pub enum JsonView {
    Null,
    Bool(bool),
    Int(int),
    Float(u64),
    Str(Seq<char>),
    Array(Seq<JsonView>),
    Object(Map<Seq<char>, JsonView>),
}

/// What a `serde_json::Value` holds.
pub uninterp spec fn json_contents(value: serde_json::Value) -> JsonView;

/// What `serde_json::from_slice` makes of some bytes: the document that they
/// write, or the text of the error.
pub uninterp spec fn json_parse(bytes: Seq<u8>) -> Result<JsonView, Seq<char>>;

/// The text in which `serde_json` writes a document.
pub uninterp spec fn json_text(document: JsonView) -> Seq<char>;

/// What each document of a list holds.
pub open spec fn documents(list: Seq<serde_json::Value>) -> Seq<JsonView> {
    list.map_values(|v: serde_json::Value| json_contents(v))
}

/// What a document holds, where there is one.
pub open spec fn opt_contents(document: Option<&serde_json::Value>) -> Option<JsonView> {
    match document {
        Some(v) => Some(json_contents(*v)),
        None => None,
    }
}

// ---------------------------------------------------------------------------
// Reading and writing
// ---------------------------------------------------------------------------
/// Calls `serde_json::from_slice`, and `to_string` on its error. The document
/// that comes back holds what `json_parse` names, and so does the text of the
/// error.
#[verifier::external_body]
pub(crate) fn parse(bytes: &[u8]) -> (r: Result<serde_json::Value, String>)
    ensures
        match r {
            Ok(v) => json_parse(bytes@) == Ok::<JsonView, Seq<char>>(json_contents(v)),
            Err(e) => json_parse(bytes@) == Err::<JsonView, Seq<char>>(e@),
        },
{
    serde_json::from_slice(bytes).map_err(|e| e.to_string())
}

/// Calls `to_string` on a `serde_json::Value`. The text depends on what the
/// document holds and on nothing else.
#[verifier::external_body]
pub(crate) fn to_text(value: &serde_json::Value) -> (r: String)
    ensures
        r@ == json_text(json_contents(*value)),
{
    value.to_string()
}

/// `clone` on a `serde_json::Value` gives a document that holds the same.
pub assume_specification[ <serde_json::Value as Clone>::clone ](
    value: &serde_json::Value,
) -> (r: serde_json::Value)
    ensures
        json_contents(r) == json_contents(*value),
;

// ---------------------------------------------------------------------------
// Taking documents apart
// ---------------------------------------------------------------------------
/// Calls `serde_json::Value::get` with a key. It finds the member of that name
/// in an object, and nothing in any other document.
#[verifier::external_body]
pub(crate) fn get<'a>(value: &'a serde_json::Value, key: &str) -> (r: Option<&'a serde_json::Value>)
    ensures
        match r {
            Some(v) => field(json_contents(*value), key@) == Some(json_contents(*v)),
            None => field(json_contents(*value), key@) is None,
        },
{
    value.get(key)
}

/// `serde_json::Value::as_str` gives the text of a string, and nothing for any
/// other document.
pub assume_specification[ serde_json::Value::as_str ](value: &serde_json::Value) -> (r: Option<
    &str,
>)
    ensures
        match r {
            Some(t) => json_contents(*value) == JsonView::Str(t@),
            None => !(json_contents(*value) is Str),
        },
;

/// `serde_json::Value::as_u64` gives an integer that fits, and nothing for any
/// other document.
pub assume_specification[ serde_json::Value::as_u64 ](value: &serde_json::Value) -> (r: Option<u64>)
    ensures
        match r {
            Some(n) => json_contents(*value) == JsonView::Int(n as int),
            None => !(json_contents(*value) matches JsonView::Int(n) && 0 <= n <= u64::MAX),
        },
;

/// `serde_json::Value::as_i64` gives an integer that fits, and nothing for any
/// other document.
pub assume_specification[ serde_json::Value::as_i64 ](value: &serde_json::Value) -> (r: Option<i64>)
    ensures
        match r {
            Some(n) => json_contents(*value) == JsonView::Int(n as int),
            None => !(json_contents(*value) matches JsonView::Int(n) && i64::MIN <= n <= i64::MAX),
        },
;

/// `serde_json::Value::as_bool` gives a truth value, and nothing for any other
/// document.
pub assume_specification[ serde_json::Value::as_bool ](value: &serde_json::Value) -> (r: Option<
    bool,
>)
    ensures
        match r {
            Some(b) => json_contents(*value) == JsonView::Bool(b),
            None => !(json_contents(*value) is Bool),
        },
;

/// `serde_json::Value::as_array` gives the items of an array, and nothing for
/// any other document.
pub assume_specification[ serde_json::Value::as_array ](value: &serde_json::Value) -> (r: Option<
    &Vec<serde_json::Value>,
>)
    ensures
        match r {
            Some(list) => json_contents(*value) == JsonView::Array(documents(list@)),
            None => !(json_contents(*value) is Array),
        },
;

/// The member of an object under a name. Any other document has no members.
pub open spec fn field(document: JsonView, key: Seq<char>) -> Option<JsonView> {
    match document {
        JsonView::Object(m) => if m.contains_key(key) {
            Some(m[key])
        } else {
            None
        },
        _ => None,
    }
}

/// The text under a name, where a string stands there.
pub open spec fn text_at(document: JsonView, key: Seq<char>) -> Option<Seq<char>> {
    match field(document, key) {
        Some(JsonView::Str(s)) => Some(s),
        _ => None,
    }
}

/// The text under a name, or the empty text where no string stands there.
pub open spec fn text_or_empty(document: JsonView, key: Seq<char>) -> Seq<char> {
    match text_at(document, key) {
        Some(s) => s,
        None => Seq::empty(),
    }
}

/// The unsigned 64-bit integer under a name.
pub open spec fn unsigned_at(document: JsonView, key: Seq<char>) -> Option<u64> {
    match field(document, key) {
        Some(JsonView::Int(n)) => if 0 <= n <= u64::MAX {
            Some(n as u64)
        } else {
            None
        },
        _ => None,
    }
}

/// The signed 64-bit integer under a name.
pub open spec fn signed_at(document: JsonView, key: Seq<char>) -> Option<i64> {
    match field(document, key) {
        Some(JsonView::Int(n)) => if i64::MIN <= n <= i64::MAX {
            Some(n as i64)
        } else {
            None
        },
        _ => None,
    }
}

/// The truth value under a name; false where none stands there.
pub open spec fn true_at(document: JsonView, key: Seq<char>) -> bool {
    field(document, key) == Some(JsonView::Bool(true))
}

/// Reads the text under a name.
pub fn text_field<'a>(value: &'a serde_json::Value, key: &str) -> (r: Option<&'a str>)
    ensures
        crate::text::opt_text(r) == text_at(json_contents(*value), key@),
{
    match get(value, key) {
        Some(v) => v.as_str(),
        None => None,
    }
}

/// Reads the text under a name; the empty text where no string stands there.
pub fn text_field_or_empty(value: &serde_json::Value, key: &str) -> (r: String)
    ensures
        r@ == text_or_empty(json_contents(*value), key@),
{
    match text_field(value, key) {
        Some(s) => s.to_string(),
        None => String::new(),
    }
}

/// Reads the unsigned integer under a name.
pub fn unsigned_field(value: &serde_json::Value, key: &str) -> (r: Option<u64>)
    ensures
        r == unsigned_at(json_contents(*value), key@),
{
    match get(value, key) {
        Some(v) => v.as_u64(),
        None => None,
    }
}

/// Reads the signed integer under a name.
pub fn signed_field(value: &serde_json::Value, key: &str) -> (r: Option<i64>)
    ensures
        r == signed_at(json_contents(*value), key@),
{
    match get(value, key) {
        Some(v) => v.as_i64(),
        None => None,
    }
}

/// Tells whether `true` stands under a name.
pub fn true_field(value: &serde_json::Value, key: &str) -> (r: bool)
    ensures
        r == true_at(json_contents(*value), key@),
{
    match get(value, key) {
        Some(v) => match v.as_bool() {
            Some(b) => b,
            None => false,
        },
        None => false,
    }
}

// ---------------------------------------------------------------------------
// Building documents
// ---------------------------------------------------------------------------
/// The documents that can be given a member: the objects, and `null`, which
/// becomes an object by it.
pub open spec fn takes_members(document: JsonView) -> bool {
    document is Object || document is Null
}

/// A document with one member set.
pub open spec fn with_member(document: JsonView, key: Seq<char>, item: JsonView) -> JsonView {
    match document {
        JsonView::Object(m) => JsonView::Object(m.insert(key, item)),
        _ => JsonView::Object(Map::empty().insert(key, item)),
    }
}

/// Assigns to `value[key]` of a `serde_json::Value`, which sets that member of
/// an object, and makes `null` an object with that one member. On any other
/// document the assignment panics.
#[verifier::external_body]
pub(crate) fn put(value: &mut serde_json::Value, key: &str, item: serde_json::Value)
    requires
        takes_members(json_contents(*old(value))),
    ensures
        json_contents(*final(value)) == with_member(
            json_contents(*old(value)),
            key@,
            json_contents(item),
        ),
{
    value[key] = item;
}

/// Makes `serde_json::Value::Null`.
#[verifier::external_body]
pub(crate) fn null() -> (r: serde_json::Value)
    ensures
        json_contents(r) == JsonView::Null,
{
    serde_json::Value::Null
}

/// Makes a `serde_json::Value::Object` of an empty `serde_json::Map`.
#[verifier::external_body]
pub(crate) fn object() -> (r: serde_json::Value)
    ensures
        json_contents(r) == JsonView::Object(Map::empty()),
{
    serde_json::Value::Object(serde_json::Map::new())
}

/// Makes a string of a text by `serde_json::Value::from`.
#[verifier::external_body]
pub(crate) fn of_text(text: &str) -> (r: serde_json::Value)
    ensures
        json_contents(r) == JsonView::Str(text@),
{
    serde_json::Value::from(text)
}

/// Makes a number of a `u64` by `serde_json::Value::from`.
#[verifier::external_body]
pub(crate) fn of_unsigned(n: u64) -> (r: serde_json::Value)
    ensures
        json_contents(r) == JsonView::Int(n as int),
{
    serde_json::Value::from(n)
}

/// Makes a number of an `i64` by `serde_json::Value::from`.
#[verifier::external_body]
pub(crate) fn of_signed(n: i64) -> (r: serde_json::Value)
    ensures
        json_contents(r) == JsonView::Int(n as int),
{
    serde_json::Value::from(n)
}

/// Makes a truth value of a `bool` by `serde_json::Value::from`.
#[verifier::external_body]
pub(crate) fn of_bool(b: bool) -> (r: serde_json::Value)
    ensures
        json_contents(r) == JsonView::Bool(b),
{
    serde_json::Value::from(b)
}

/// Makes an array of a list of documents by `serde_json::Value::from`.
#[verifier::external_body]
pub(crate) fn of_list(list: Vec<serde_json::Value>) -> (r: serde_json::Value)
    ensures
        json_contents(r) == JsonView::Array(documents(list@)),
{
    serde_json::Value::from(list)
}

/// A document with one member set.
pub(crate) fn with(value: serde_json::Value, key: &str, item: serde_json::Value) -> (r:
    serde_json::Value)
    requires
        takes_members(json_contents(value)),
    ensures
        json_contents(r) == with_member(json_contents(value), key@, json_contents(item)),
{
    let mut out = value;
    put(&mut out, key, item);
    out
}

/// Tells whether a document can be given a member.
pub fn can_take_members(value: &serde_json::Value) -> (r: bool)
    ensures
        r == takes_members(json_contents(*value)),
{
    value.is_object() || value.is_null()
}

/// `serde_json::Value::is_object` holds for objects alone.
pub assume_specification[ serde_json::Value::is_object ](value: &serde_json::Value) -> (r: bool)
    ensures
        r == json_contents(*value) is Object,
;

/// `serde_json::Value::is_null` holds for `null` alone.
pub assume_specification[ serde_json::Value::is_null ](value: &serde_json::Value) -> (r: bool)
    ensures
        r == json_contents(*value) is Null,
;

/// The bytes of the text in which a document is written.
pub open spec fn json_bytes(document: JsonView) -> Seq<u8> {
    encode_utf8(json_text(document))
}

/// Writes a document as bytes.
pub fn to_bytes(value: &serde_json::Value) -> (r: Vec<u8>)
    ensures
        r@ == json_bytes(json_contents(*value)),
{
    let text = to_text(value);
    text.as_str().as_bytes_vec()
}

// ---------------------------------------------------------------------------
// Laws
// ---------------------------------------------------------------------------
/// An object has the members of its map, and no other document has members.
pub proof fn law_only_objects_have_members(document: JsonView, key: Seq<char>)
    ensures
        document matches JsonView::Object(m) ==> field(document, key) == (if m.dom().contains(
            key,
        ) {
            Some(m[key])
        } else {
            None
        }),
        !(document is Object) ==> field(document, key) is None,
{
}

/// What is read under a name is the member of that name, where it is of the kind that is
/// asked for: it is never converted, and nothing else is taken for it.
pub proof fn law_members_are_read_as_they_are(document: JsonView, key: Seq<char>)
    ensures
        forall|t: Seq<char>|
            text_at(document, key) == Some(t) <==> field(document, key) == Some(JsonView::Str(t)),
        text_or_empty(document, key).len() > 0 ==> field(document, key) == Some(
            JsonView::Str(text_or_empty(document, key)),
        ),
        field(document, key) matches Some(JsonView::Str(t)) ==> text_or_empty(document, key) == t,
        forall|n: u64| #![auto]
            unsigned_at(document, key) == Some(n) <==> field(document, key) == Some(
                JsonView::Int(n as int),
            ),
        forall|n: i64| #![auto]
            signed_at(document, key) == Some(n) <==> field(document, key) == Some(
                JsonView::Int(n as int),
            ),
        true_at(document, key) <==> field(document, key) == Some(JsonView::Bool(true)),
{
}

/// Setting a member gives that member its value and leaves every other one as it was.
pub proof fn law_setting_a_member_leaves_the_rest(
    document: JsonView,
    key: Seq<char>,
    item: JsonView,
    other: Seq<char>,
)
    requires
        takes_members(document),
        other != key,
    ensures
        field(with_member(document, key, item), key) == Some(item),
        field(with_member(document, key, item), other) == field(document, other),
{
}

} // verus!
