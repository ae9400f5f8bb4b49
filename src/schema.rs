//! Structural validation of a document against a JSON schema (draft 7).
use vstd::prelude::*;
use crate::error::{Failure, PoemError};

verus! {

/// Why serde_json refuses a text as JSON (malformed syntax, nesting deeper
/// than it allows, a number out of range), or `None` when it accepts it.
pub uninterp spec fn json_refusal(text: Seq<char>) -> Option<Seq<char>>;

/// What the draft 7 engine makes of a schema and a document, both accepted as
/// JSON: the reason it refuses the schema, or the message of every violation
/// of the schema by the document, in the order the engine finds them.
pub uninterp spec fn draft7_verdict(schema: Seq<char>, document: Seq<char>) -> Result<Seq<Seq<char>>, Seq<char>>;

/// Relies on `serde_json::from_str` into a `serde_json::Value`: it accepts or
/// refuses a text, with a message, according to the text alone.
#[verifier::external_body]
fn check_json(text: &str) -> (r: Result<(), String>)
    ensures
        match r {
            Ok(()) => json_refusal(text@) is None,
            Err(m) => json_refusal(text@) == Some(m@),
        },
{
    serde_json::from_str::<serde_json::Value>(text).map(|_| ()).map_err(|e| e.to_string())
}

/// Relies on `jsonschema::draft7::new` and `jsonschema::Validator::iter_errors`,
/// applied to the two texts as `serde_json::from_str` reads them: the reason
/// the schema does not compile, or the text of every violation. With the
/// crate's http and file resolvers left out, it fetches nothing, so the result
/// depends on the two texts alone. (Verus cannot declare
/// `jsonschema::Validator`, whose parameter is bound by a trait of that crate,
/// so the compiled schema does not leave this function.)
#[verifier::external_body]
fn run_draft7(schema_text: &str, document_json: &str) -> (r: Result<Vec<String>, String>)
    requires
        json_refusal(schema_text@) is None,
        json_refusal(document_json@) is None,
    ensures
        match r {
            Ok(ms) => draft7_verdict(schema_text@, document_json@) == Ok::<Seq<Seq<char>>, Seq<char>>(
                ms@.map_values(|m: String| m@),
            ),
            Err(m) => draft7_verdict(schema_text@, document_json@) == Err::<Seq<Seq<char>>, Seq<char>>(m@),
        },
{
    let schema: serde_json::Value = serde_json::from_str(schema_text).map_err(|e| e.to_string())?;
    let document: serde_json::Value = serde_json::from_str(document_json).map_err(|e| e.to_string())?;
    let validator = jsonschema::draft7::new(&schema).map_err(|e| e.to_string())?;
    Ok(validator.iter_errors(&document).map(|e| e.to_string()).collect())
}

/// The outcome of a `Result` with no success value, as an optional failure.
pub open spec fn outcome(r: Result<(), PoemError>) -> Option<Failure> {
    match r {
        Ok(()) => None,
        Err(e) => Some(e@),
    }
}

/// The schema stage's verdict given the messages of every violation: none
/// passes, and otherwise all of them are reported together.
pub open spec fn violations_verdict(messages: Seq<Seq<char>>) -> Option<Failure> {
    if messages.len() == 0 {
        None
    } else {
        Some(Failure::SchemaViolations(messages))
    }
}

/// The schema stage's verdict on the given schema and document texts: a
/// schema that is not JSON or that the engine refuses is reported as an
/// invalid schema, a document that is not JSON as an invalid document, and
/// otherwise every violation is reported together.
pub open spec fn schema_verdict(schema: Seq<char>, document: Seq<char>) -> Option<Failure> {
    match json_refusal(schema) {
        Some(m) => Some(Failure::InvalidSchema(m)),
        None => match json_refusal(document) {
            Some(m) => Some(Failure::InvalidDocument(m)),
            None => match draft7_verdict(schema, document) {
                Err(m) => Some(Failure::InvalidSchema(m)),
                Ok(ms) => violations_verdict(ms),
            },
        },
    }
}

/// Turns the messages of the schema engine into the schema stage's verdict.
pub fn schema_outcome(messages: Vec<String>) -> (r: Result<(), PoemError>)
    ensures
        outcome(r) == violations_verdict(messages@.map_values(|m: String| m@)),
{
    if messages.len() == 0 {
        Ok(())
    } else {
        Err(PoemError::SchemaViolations(messages))
    }
}

/// Validates the JSON text of a document against the JSON text of a draft 7
/// schema, reporting every violation at once.
pub fn validate_schema(schema_text: &str, document_json: &str) -> (r: Result<(), PoemError>)
    ensures
        outcome(r) == schema_verdict(schema_text@, document_json@),
{
    match check_json(schema_text) {
        Ok(()) => {},
        Err(m) => {
            return Err(PoemError::InvalidSchema(m));
        },
    }
    match check_json(document_json) {
        Ok(()) => {},
        Err(m) => {
            return Err(PoemError::InvalidDocument(m));
        },
    }
    match run_draft7(schema_text, document_json) {
        Ok(messages) => schema_outcome(messages),
        Err(m) => Err(PoemError::InvalidSchema(m)),
    }
}

} // verus!
