//! JSON values as the dispatcher sees them: parsing, field access and
//! encoding, with serde_json doing the work.
use vstd::prelude::*;

verus! {

#[verifier::external_type_specification]
#[verifier::external_body]
pub struct ExJsonValue(serde_json::Value);

/// The content of a JSON value, as plain values.
pub enum JsonModel {
    Null,
    Bool(bool),
    /// An integer that serde_json reads as `i64` or `u64`: written without
    /// fraction or exponent, fits in one of them, and is not `-0`.
    Int(int),
    /// Any other number, given by its text as serde_json writes it.
    Real(Seq<char>),
    Str(Seq<char>),
    Array(Seq<JsonModel>),
    Object(Map<Seq<char>, JsonModel>),
}

/// What a `serde_json::Value` holds.
pub uninterp spec fn json_content(v: serde_json::Value) -> JsonModel;

/// What `serde_json::from_str` makes of a text: the value, or the message of
/// the error.
pub uninterp spec fn json_parse(s: Seq<char>) -> Result<JsonModel, Seq<char>>;

/// The compact text that serde_json writes for a value.
pub uninterp spec fn json_text(m: JsonModel) -> Seq<char>;

/// The lower-case hexadecimal digit of `n`, for `0 <= n < 16`.
pub open spec fn hex_digit(n: int) -> char {
    seq!['0', '1', '2', '3', '4', '5', '6', '7', '8', '9', 'a', 'b', 'c', 'd', 'e', 'f'][n]
}

/// How one character appears inside a JSON string literal.
pub open spec fn escaped_char(c: char) -> Seq<char> {
    if c == '"' {
        seq!['\\', '"']
    } else if c == '\\' {
        seq!['\\', '\\']
    } else if c == '\u{8}' {
        seq!['\\', 'b']
    } else if c == '\t' {
        seq!['\\', 't']
    } else if c == '\n' {
        seq!['\\', 'n']
    } else if c == '\u{c}' {
        seq!['\\', 'f']
    } else if c == '\r' {
        seq!['\\', 'r']
    } else if (c as int) < 0x20 {
        seq!['\\', 'u', '0', '0', hex_digit((c as int) / 16), hex_digit((c as int) % 16)]
    } else {
        seq![c]
    }
}

/// The characters of a JSON string literal between its quotes.
pub open spec fn escaped(s: Seq<char>) -> Seq<char>
    decreases s.len(),
{
    if s.len() == 0 {
        Seq::empty()
    } else {
        escaped(s.drop_last()) + escaped_char(s.last())
    }
}

/// The JSON string literal of `s`.
pub open spec fn json_quoted(s: Seq<char>) -> Seq<char> {
    seq!['"'] + escaped(s) + seq!['"']
}

/// A character that stands for itself inside a JSON string literal.
pub open spec fn plain_char(c: char) -> bool {
    c != '"' && c != '\\' && (c as int) >= 0x20
}

/// Relies on `serde_json::from_str::<Value>`: parses one whole JSON
/// document, or gives the message of the error. A bare `{}` is an empty
/// object.
#[verifier::external_body]
pub(crate) fn parse_value(s: &str) -> (r: Result<serde_json::Value, String>)
    ensures
        r is Ok ==> json_parse(s@) == Ok::<JsonModel, Seq<char>>(json_content(r->Ok_0)),
        r is Err ==> json_parse(s@) == Err::<JsonModel, Seq<char>>(r->Err_0@),
        (s@.len() == 2 && s@[0] == '{' && s@[1] == '}') ==> (r is Ok && json_content(r->Ok_0)
            == JsonModel::Object(Map::empty())),
{
    match serde_json::from_str::<serde_json::Value>(s) {
        Ok(v) => Ok(v),
        Err(e) => Err(e.to_string()),
    }
}

/// Relies on `serde_json::to_string` on a `str`: writes the string literal,
/// escaping as its `ESCAPE` table says. Writing into a `Vec` cannot fail.
#[verifier::external_body]
pub(crate) fn quote(s: &str) -> (r: String)
    ensures
        r@ == json_quoted(s@),
{
    serde_json::to_string(s).unwrap()
}

/// Relies on `Value::get` with a `str` key: the member of an object under
/// that key; nothing for a missing key or a value that is no object.
#[verifier::external_body]
pub(crate) fn member<'a>(v: &'a serde_json::Value, key: &str) -> (r: Option<&'a serde_json::Value>)
    ensures
        r is Some <==> (json_content(*v) is Object && json_content(*v)->Object_0.contains_key(
            key@,
        )),
        r is Some ==> json_content(*r->Some_0) == json_content(*v)->Object_0[key@],
{
    v.get(key)
}

/// Relies on `Value::is_object`: whether the value is a JSON object.
#[verifier::external_body]
pub(crate) fn is_object(v: &serde_json::Value) -> (r: bool)
    ensures
        r == json_content(*v) is Object,
{
    v.is_object()
}

/// Relies on `Value::is_null`: whether the value is JSON `null`.
#[verifier::external_body]
pub(crate) fn is_null(v: &serde_json::Value) -> (r: bool)
    ensures
        r == json_content(*v) is Null,
{
    v.is_null()
}

/// Relies on `Value::as_array`: the elements of a JSON array, in order.
#[verifier::external_body]
pub(crate) fn as_array(v: &serde_json::Value) -> (r: Option<&Vec<serde_json::Value>>)
    ensures
        r is Some <==> json_content(*v) is Array,
        r is Some ==> r->Some_0@.len() == json_content(*v)->Array_0.len() && forall|i: int|
            0 <= i < r->Some_0@.len() ==> json_content(#[trigger] r->Some_0@[i])
                == json_content(*v)->Array_0[i],
{
    v.as_array()
}

/// Relies on `Value::as_u64`: an integer that fits in `u64`.
#[verifier::external_body]
pub(crate) fn as_nat(v: &serde_json::Value) -> (r: Option<u64>)
    ensures
        r is Some <==> (json_content(*v) is Int && 0 <= json_content(*v)->Int_0 <= u64::MAX),
        r is Some ==> r->Some_0 == json_content(*v)->Int_0,
{
    v.as_u64()
}

/// Relies on `Value::as_i64`: an integer that fits in `i64`.
#[verifier::external_body]
pub(crate) fn as_int(v: &serde_json::Value) -> (r: Option<i64>)
    ensures
        r is Some <==> (json_content(*v) is Int && i64::MIN <= json_content(*v)->Int_0
            <= i64::MAX),
        r is Some ==> r->Some_0 == json_content(*v)->Int_0,
{
    v.as_i64()
}

/// Relies on `Value::as_str`: the text of a JSON string.
#[verifier::external_body]
pub(crate) fn as_text(v: &serde_json::Value) -> (r: Option<&str>)
    ensures
        r is Some <==> json_content(*v) is Str,
        r is Some ==> r->Some_0@ == json_content(*v)->Str_0,
{
    v.as_str()
}

/// Relies on `Value::as_bool`: the value of a JSON boolean.
#[verifier::external_body]
pub(crate) fn as_flag(v: &serde_json::Value) -> (r: Option<bool>)
    ensures
        r is Some <==> json_content(*v) is Bool,
        r is Some ==> r->Some_0 == json_content(*v)->Bool_0,
{
    v.as_bool()
}

/// Relies on `Display for Value`: the compact JSON text of a value; an
/// empty object is written `{}`.
#[verifier::external_body]
pub(crate) fn to_text(v: &serde_json::Value) -> (r: String)
    ensures
        r@ == json_text(json_content(*v)),
        json_content(*v) == JsonModel::Object(Map::empty()) ==> (r@.len() == 2 && r@[0] == '{'
            && r@[1] == '}'),
{
    v.to_string()
}

} // verus!
