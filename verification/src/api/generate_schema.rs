//! The schema of a GraphQL endpoint, taken out of the answer to an
//! introspection query.

use vstd::prelude::*;

verus! {

/// A JSON value of `serde_json`, carried through unopened.
#[verifier::external_type_specification]
#[verifier::external_body]
pub struct ExJsonValue(serde_json::Value);

/// The error type of `serde_json`, carried through unopened.
#[verifier::external_type_specification]
#[verifier::external_body]
pub struct ExJsonError(serde_json::Error);

/// The error type of `reqwest`, carried through unopened.
#[verifier::external_type_specification]
#[verifier::external_body]
pub struct ExRequestError(reqwest::Error);

/// What a JSON value holds, as its compact JSON text.
pub uninterp spec fn json_text(value: serde_json::Value) -> Seq<char>;

/// The JSON text of the member `key` of the value with the JSON text `text`,
/// as indexing with a string gives it.
pub uninterp spec fn member_text(text: Seq<char>, key: Seq<char>) -> Seq<char>;

/// Whether the value with the JSON text `text` is null.
pub uninterp spec fn null_text(text: Seq<char>) -> bool;

/// The pretty-printed form of the value with the JSON text `text`.
pub uninterp spec fn pretty_text(text: Seq<char>) -> Seq<char>;

/// Indexes a `serde_json::Value` with a string, as `value[key]` does, and
/// clones what is there. Trusted: what comes back depends on the value and
/// the key alone. (The library gives null where the value is no object or
/// has no such member; it does not panic.)
#[verifier::external_body]
fn member(value: &serde_json::Value, key: &str) -> (found: serde_json::Value)
    ensures
        json_text(found) == member_text(json_text(*value), key@),
{
    value[key].clone()
}

/// Calls `serde_json::Value::is_null`. Trusted: the answer depends on the
/// value alone.
#[verifier::external_body]
fn is_null(value: &serde_json::Value) -> (null: bool)
    ensures
        null == null_text(json_text(*value)),
{
    value.is_null()
}

/// Calls `serde_json::to_string_pretty` on a value. Trusted: where it
/// succeeds, the text depends on the value alone. Nothing is said of when it
/// fails.
#[verifier::external_body]
fn to_string_pretty(value: &serde_json::Value) -> (text: Result<String, serde_json::Error>)
    ensures
        text matches Ok(t) ==> t@ == pretty_text(json_text(*value)),
{
    serde_json::to_string_pretty(value)
}

/// Why the typings of an endpoint could not be made. `E` is the error of
/// whoever writes the operations for the schema.
#[derive(Debug)]
pub enum GenerateTypingsError<E> {
    Network(reqwest::Error),
    JsonParse(serde_json::Error),
    Io(std::io::Error),
    NoData,
    GenerateOperationsError(E),
}

/// The JSON text of the schema in a response with the JSON text `response`:
/// the member `__schema` of its member `data`.
pub open spec fn schema_in(response: Seq<char>) -> Seq<char> {
    member_text(member_text(response, "data"@), "__schema"@)
}

/// Decides whether a response holds a schema: `schema` is what was found
/// at `data.__schema`, and `null` says whether that is null. A null schema
/// means that the response had no data.
pub fn schema_or_no_data<E>(schema: serde_json::Value, null: bool) -> (found: Result<
    serde_json::Value,
    GenerateTypingsError<E>,
>)
    ensures
        null ==> (found matches Err(e) && e is NoData),
        !null ==> found == Ok::<serde_json::Value, GenerateTypingsError<E>>(schema),
{
    if null {
        Err(GenerateTypingsError::NoData)
    } else {
        Ok(schema)
    }
}

/// The schema in the response to an introspection query, together with its
/// pretty-printed text.
///
/// A response without a schema, that is one whose `data.__schema` is null,
/// fails with `NoData`. Otherwise the only failure is that of the printer,
/// which is passed on as `JsonParse`.
pub fn schema_of_response<E>(response: &serde_json::Value) -> (schema: Result<
    (serde_json::Value, String),
    GenerateTypingsError<E>,
>)
    ensures
        match schema {
            Ok((value, text)) => !null_text(schema_in(json_text(*response))) && json_text(value)
                == schema_in(json_text(*response)) && text@ == pretty_text(
                schema_in(json_text(*response)),
            ),
            Err(e) => if null_text(schema_in(json_text(*response))) {
                e is NoData
            } else {
                e is JsonParse
            },
        },
{
    let data = member(response, "data");
    let found = member(&data, "__schema");
    let null = is_null(&found);
    match schema_or_no_data(found, null) {
        Err(e) => Err(e),
        Ok(schema) => match to_string_pretty(&schema) {
            Ok(text) => Ok((schema, text)),
            Err(e) => Err(GenerateTypingsError::JsonParse(e)),
        },
    }
}

} // verus!
