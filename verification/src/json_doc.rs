//! Members of JSON documents, read with the `json` crate.
use vstd::prelude::*;

verus! {

/// A member of a JSON document as the `json` crate shows it: whether it is
/// null (also when it is missing), whether it is a string, its text (`null`
/// for null, a string's own characters, other values as JSON), and its value
/// as a `u64` when it is a number that fits one.
#[derive(Debug, Clone)]
pub struct JsonField {
    pub is_null: bool,
    pub is_text: bool,
    pub text: String,
    pub number: Option<u64>,
}

pub open spec fn field_view(f: JsonField) -> (bool, bool, Seq<char>, Option<u64>) {
    (f.is_null, f.is_text, f.text@, f.number)
}

/// `doc[key]` of the document `doc` parsed by `json::parse`, as a field view;
/// `None` when the document does not parse. A function of its arguments alone.
pub uninterp spec fn json_member(doc: Seq<char>, key: Seq<char>) -> Option<(bool, bool, Seq<char>, Option<u64>)>;

/// `doc[list][0][key]` of the document `doc` parsed by `json::parse`, as a
/// field view; `None` when the document does not parse.
pub uninterp spec fn json_first_member(doc: Seq<char>, list: Seq<char>, key: Seq<char>) -> Option<
    (bool, bool, Seq<char>, Option<u64>),
>;

/// `json::parse`, then `doc[key]` read as a field.
#[verifier::external_body]
pub(crate) fn json_member_of(doc: &str, key: &str) -> (res: Result<JsonField, json::Error>)
    ensures
        res is Ok <==> json_member(doc@, key@) is Some,
        res matches Ok(f) ==> json_member(doc@, key@) == Some(field_view(f)),
{
    match json::parse(doc) {
        Ok(v) => Ok(
            JsonField {
                is_null: v[key].is_null(),
                is_text: v[key].is_string(),
                text: v[key].to_string(),
                number: v[key].as_u64(),
            },
        ),
        Err(e) => Err(e),
    }
}

/// `json::parse`, then `doc[list][0][key]` read as a field.
#[verifier::external_body]
pub(crate) fn json_first_member_of(doc: &str, list: &str, key: &str) -> (res: Result<
    JsonField,
    json::Error,
>)
    ensures
        res is Ok <==> json_first_member(doc@, list@, key@) is Some,
        res matches Ok(f) ==> json_first_member(doc@, list@, key@) == Some(field_view(f)),
{
    match json::parse(doc) {
        Ok(v) => Ok(
            JsonField {
                is_null: v[list][0][key].is_null(),
                is_text: v[list][0][key].is_string(),
                text: v[list][0][key].to_string(),
                number: v[list][0][key].as_u64(),
            },
        ),
        Err(e) => Err(e),
    }
}

} // verus!
