//! JSON documents, as `serde_json` reads them.

use vstd::prelude::*;

verus! {

/// `serde_json::Value`: a JSON document. Nothing inside it is visible to the
/// verifier; the library only carries such values from the parser to the
/// caller and from the caller to the request.
#[verifier::external_type_specification]
#[verifier::external_body]
pub struct ExJsonValue(serde_json::Value);

/// What `serde_json::from_str::<serde_json::Value>` makes of a text: the
/// document it reads, or the message of the error it reports. A function of
/// the text alone.
pub uninterp spec fn parsed_json(text: Seq<char>) -> Result<serde_json::Value, Seq<char>>;

/// The text of a JSON object without members.
pub open spec fn empty_object_text() -> Seq<char> {
    "{}"@
}

/// The document that the text of an empty object stands for.
pub open spec fn empty_object_value() -> serde_json::Value {
    parsed_json(empty_object_text())->Ok_0
}

/// Calls `serde_json::from_str::<serde_json::Value>`. An error is handed
/// back as the text that its `Display` writes. Trusted: the result is
/// `parsed_json` of the text.
#[verifier::external_body]
pub(crate) fn parse_json(text: &str) -> (r: Result<serde_json::Value, String>)
    ensures
        match r {
            Ok(v) => parsed_json(text@) == Ok::<serde_json::Value, Seq<char>>(v),
            Err(m) => parsed_json(text@) == Err::<serde_json::Value, Seq<char>>(m@),
        },
{
    match serde_json::from_str::<serde_json::Value>(text) {
        Ok(v) => Ok(v),
        Err(e) => Err(e.to_string()),
    }
}

/// Builds `serde_json::Value::Object` over a new, empty `serde_json::Map`.
/// Trusted: this is the document that `serde_json::from_str` reads from the
/// text `{}`.
#[verifier::external_body]
pub(crate) fn empty_object() -> (r: serde_json::Value)
    ensures
        (parsed_json(empty_object_text()) == Ok::<serde_json::Value, Seq<char>>(r)),
{
    serde_json::Value::Object(serde_json::Map::new())
}

} // verus!
