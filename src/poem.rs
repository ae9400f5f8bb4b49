//! The whole validation: the schema stage, then, on request, the strict
//! language check.
use vstd::prelude::*;
use crate::document::Node;
use crate::error::{Failure, PoemError, failure_text};
use crate::language::{language_verdict, validate_language_codes};
use crate::schema::{draft7_verdict, json_refusal, outcome, schema_verdict, validate_schema};

verus! {

/// The verdict on a document from the outcome of its schema check: a schema
/// failure is final; otherwise strict mode adds the language check.
pub open spec fn poem_verdict(schema: Option<Failure>, doc: Node, strict_language: bool) -> Option<Failure> {
    match schema {
        Some(f) => Some(f),
        None => if strict_language {
            language_verdict(doc)
        } else {
            None
        },
    }
}

/// Completes validation once the schema stage has given its result.
pub fn finish_validation(schema_stage: Result<(), PoemError>, document: &Node, strict_language: bool) -> (r: Result<(), PoemError>)
    ensures
        outcome(r) == poem_verdict(outcome(schema_stage), *document, strict_language),
{
    match schema_stage {
        Err(e) => Err(e),
        Ok(()) => if strict_language {
            validate_language_codes(document)
        } else {
            Ok(())
        },
    }
}

/// The verdict of a whole validation: the schema stage on the two texts,
/// then, on request, the language check on the tree.
pub open spec fn validation_verdict(
    schema: Seq<char>,
    document_json: Seq<char>,
    document: Node,
    strict_language: bool,
) -> Option<Failure> {
    poem_verdict(schema_verdict(schema, document_json), document, strict_language)
}

/// Validates a document: `document_json` is its JSON text, checked against
/// the draft 7 schema `schema_text`; `document` is the same document as a
/// tree, whose language tags are checked when `strict_language` is set.
pub fn validate_poem(schema_text: &str, document_json: &str, document: &Node, strict_language: bool) -> (r: Result<(), PoemError>)
    ensures
        outcome(r) == validation_verdict(schema_text@, document_json@, *document, strict_language),
{
    let schema_stage = validate_schema(schema_text, document_json);
    finish_validation(schema_stage, document, strict_language)
}

/// Without strict checking the verdict is the schema stage's alone: a
/// document that satisfies the schema passes whatever its language fields
/// hold.
pub proof fn lemma_lenient_mode_ignores_language(schema: Seq<char>, document_json: Seq<char>, document: Node)
    ensures
        validation_verdict(schema, document_json, document, false) == schema_verdict(schema, document_json),
        schema_verdict(schema, document_json) is None ==> validation_verdict(schema, document_json, document, false) is None,
{
}

/// When the engine finds violations, every one of them is reported, together
/// and in order, in either mode: the report holds as many messages as the
/// engine found.
pub proof fn lemma_all_violations_reported(
    schema: Seq<char>,
    document_json: Seq<char>,
    document: Node,
    strict_language: bool,
    messages: Seq<Seq<char>>,
)
    requires
        json_refusal(schema) is None,
        json_refusal(document_json) is None,
        draft7_verdict(schema, document_json) == Ok::<Seq<Seq<char>>, Seq<char>>(messages),
        messages.len() > 0,
    ensures
        validation_verdict(schema, document_json, document, strict_language) == Some(
            Failure::SchemaViolations(messages),
        ),
{
}

/// A schema that the engine refuses to compile is reported as an invalid
/// schema, never as a pass or as violations of the document.
pub proof fn lemma_refused_schema_reported(
    schema: Seq<char>,
    document_json: Seq<char>,
    document: Node,
    strict_language: bool,
)
    requires
        json_refusal(schema) is None,
        json_refusal(document_json) is None,
        draft7_verdict(schema, document_json) is Err,
    ensures
        validation_verdict(schema, document_json, document, strict_language) == Some(
            Failure::InvalidSchema(draft7_verdict(schema, document_json)->Err_0),
        ),
{
}

/// The outcome of `validate_poem` is a function of its arguments: validating
/// the same document twice with the same flags gives the same verdict, and,
/// on failure, the same message.
pub proof fn lemma_validation_repeatable(
    schema: Seq<char>,
    document_json: Seq<char>,
    document: Node,
    strict_language: bool,
    r1: Option<Failure>,
    r2: Option<Failure>,
)
    requires
        r1 == validation_verdict(schema, document_json, document, strict_language),
        r2 == validation_verdict(schema, document_json, document, strict_language),
    ensures
        r1 == r2,
        r1 matches Some(f1) ==> r2 matches Some(f2) && failure_text(f1) == failure_text(f2),
{
}

} // verus!
