use poem_validator::document::{Entry, Node};
use poem_validator::error::PoemError;
use poem_validator::language::validate_language_codes;
use poem_validator::poem::{finish_validation, validate_poem};
use poem_validator::schema::{schema_outcome, validate_schema};
use poem_validator::tag::is_valid_language_tag;

const SCHEMA: &str = r#"{
  "$schema": "http://json-schema.org/draft-07/schema#",
  "type": "object",
  "additionalProperties": {
    "type": "object",
    "required": ["text"],
    "properties": {
      "text": { "type": "string" },
      "title": { "type": "string" }
    }
  }
}"#;

fn text(s: &str) -> Node {
    Node::Text(s.to_string())
}

fn mapping(pairs: Vec<(Node, Node)>) -> Node {
    Node::Mapping(pairs.into_iter().map(|(key, value)| Entry { key, value }).collect())
}

fn version(language: Option<Node>, body: &str) -> Node {
    let mut pairs = Vec::new();
    if let Some(l) = language {
        pairs.push((text("language"), l));
    }
    pairs.push((text("text"), text(body)));
    mapping(pairs)
}

fn two_versions() -> (Node, String) {
    let doc = mapping(vec![
        (text("v1"), version(Some(text("eng")), "...")),
        (text("v2"), version(Some(text("xx-Latn")), "...")),
    ]);
    let json = r#"{"v1": {"language": "eng", "text": "..."}, "v2": {"language": "xx-Latn", "text": "..."}}"#;
    (doc, json.to_string())
}

fn message_of(r: Result<(), PoemError>) -> String {
    match r {
        Ok(()) => panic!("expected a failure"),
        Err(e) => e.message(),
    }
}

#[test]
fn base_code_alone_is_accepted() {
    assert!(is_valid_language_tag("eng"));
    assert!(is_valid_language_tag("deu"));
}

#[test]
fn base_and_script_are_accepted() {
    assert!(is_valid_language_tag("eng-Latn"));
    assert!(is_valid_language_tag("rus-Cyrl"));
}

#[test]
fn lookups_ignore_case() {
    assert!(is_valid_language_tag("ENG-LATN"));
}

#[test]
fn unknown_base_is_rejected_whatever_the_script() {
    assert!(!is_valid_language_tag("xx"));
    assert!(!is_valid_language_tag("xx-Latn"));
    assert!(!is_valid_language_tag("zzz-Latn"));
}

#[test]
fn unknown_script_is_rejected() {
    assert!(!is_valid_language_tag("eng-Xyzw"));
    assert!(!is_valid_language_tag("eng-"));
}

#[test]
fn segments_after_the_script_are_ignored() {
    assert!(is_valid_language_tag("eng-Latn-US"));
    assert!(is_valid_language_tag("eng-Latn-not a region"));
}

#[test]
fn empty_tag_is_rejected() {
    assert!(!is_valid_language_tag(""));
    assert!(!is_valid_language_tag("-Latn"));
}

#[test]
fn strict_check_reports_first_bad_version() {
    let (doc, _) = two_versions();
    match validate_language_codes(&doc) {
        Err(PoemError::InvalidLanguageTag { tag, version }) => {
            assert_eq!(tag, "xx-Latn");
            assert_eq!(version, "v2");
        }
        _ => panic!("expected an invalid tag"),
    }
}

#[test]
fn strict_check_stops_at_first_failure() {
    let doc = mapping(vec![
        (text("a"), version(None, "...")),
        (text("b"), version(Some(text("xx")), "...")),
    ]);
    match validate_language_codes(&doc) {
        Err(PoemError::MissingLanguage(v)) => assert_eq!(v, "a"),
        _ => panic!("expected the missing language of the first version"),
    }
}

#[test]
fn missing_language_is_reported_regardless_of_later_versions() {
    let doc = mapping(vec![
        (text("v1"), version(Some(text("eng")), "...")),
        (text("v2"), version(None, "...")),
        (text("v3"), version(Some(Node::Bool(true)), "...")),
    ]);
    let r = validate_language_codes(&doc);
    assert_eq!(
        message_of(r),
        "Missing required language property in version 'v2' (required with strict language checking)"
    );
}

#[test]
fn language_must_be_text() {
    let doc = mapping(vec![(Node::Number("7".to_string()), version(Some(Node::Number("1".to_string())), "..."))]);
    match validate_language_codes(&doc) {
        Err(PoemError::LanguageNotText(v)) => assert_eq!(v, "7"),
        _ => panic!("expected a language that is not text"),
    }
    assert_eq!(
        message_of(validate_language_codes(&doc)),
        "Language property must be a string in version '7'"
    );
}

#[test]
fn version_that_is_no_mapping_has_no_language() {
    let doc = mapping(vec![(text("v1"), text("just text"))]);
    match validate_language_codes(&doc) {
        Err(PoemError::MissingLanguage(v)) => assert_eq!(v, "v1"),
        _ => panic!("expected a missing language"),
    }
}

#[test]
fn document_that_is_no_mapping_passes_strict_check() {
    assert!(validate_language_codes(&Node::Sequence(vec![text("a")])).is_ok());
    assert!(validate_language_codes(&Node::Null).is_ok());
}

#[test]
fn empty_document_passes_strict_check() {
    assert!(validate_language_codes(&Node::Mapping(Vec::new())).is_ok());
}

#[test]
fn keys_that_are_no_text_are_labelled() {
    assert_eq!(Node::Null.label(), "null");
    assert_eq!(Node::Bool(false).label(), "false");
    assert_eq!(Node::Sequence(Vec::new()).label(), "sequence");
    assert_eq!(Node::Mapping(Vec::new()).label(), "mapping");
}

#[test]
fn no_violations_pass() {
    assert!(schema_outcome(Vec::new()).is_ok());
}

#[test]
fn all_violations_are_kept() {
    let r = schema_outcome(vec!["first".to_string(), "second".to_string()]);
    match &r {
        Err(PoemError::SchemaViolations(ms)) => assert_eq!(ms, &vec!["first".to_string(), "second".to_string()]),
        _ => panic!("expected schema violations"),
    }
    assert_eq!(message_of(r), "Schema validation failed:\n  \u{2716} first\n  \u{2716} second");
}

#[test]
fn schema_reports_each_missing_field() {
    let json = r#"{"v1": {"language": "eng"}, "v2": {"language": "deu"}, "v3": {"text": "..."}}"#;
    match validate_schema(SCHEMA, json) {
        Err(PoemError::SchemaViolations(ms)) => assert_eq!(ms.len(), 2),
        _ => panic!("expected two violations"),
    }
}

#[test]
fn schema_accepts_conforming_document() {
    let (_, json) = two_versions();
    assert!(validate_schema(SCHEMA, &json).is_ok());
}

#[test]
fn malformed_schema_is_a_schema_error() {
    let (_, json) = two_versions();
    match validate_schema("{not json", &json) {
        Err(PoemError::InvalidSchema(_)) => {}
        _ => panic!("expected an invalid schema"),
    }
    match validate_schema(r#"{"type": 12}"#, &json) {
        Err(PoemError::InvalidSchema(m)) => assert!(!m.is_empty()),
        _ => panic!("expected an invalid schema"),
    }
}

#[test]
fn malformed_document_is_a_document_error() {
    match validate_schema(SCHEMA, "{\"v1\": ") {
        Err(PoemError::InvalidDocument(_)) => {}
        _ => panic!("expected an invalid document"),
    }
}

#[test]
fn strict_mode_rejects_unknown_base() {
    let (doc, json) = two_versions();
    let r = validate_poem(SCHEMA, &json, &doc, true);
    let m = message_of(r);
    assert_eq!(m, "Invalid language tag 'xx-Latn' in version 'v2'");
    assert!(m.contains("xx"));
}

#[test]
fn lenient_mode_accepts_any_language() {
    let (doc, json) = two_versions();
    assert!(validate_poem(SCHEMA, &json, &doc, false).is_ok());
}

#[test]
fn lenient_mode_still_checks_schema() {
    let doc = mapping(vec![(text("v1"), mapping(vec![(text("language"), text("eng"))]))]);
    let json = r#"{"v1": {"language": "eng"}}"#;
    match validate_poem(SCHEMA, json, &doc, false) {
        Err(PoemError::SchemaViolations(ms)) => assert_eq!(ms.len(), 1),
        _ => panic!("expected a violation"),
    }
}

#[test]
fn validating_twice_gives_the_same_outcome() {
    let (doc, json) = two_versions();
    let first = message_of(validate_poem(SCHEMA, &json, &doc, true));
    let second = message_of(validate_poem(SCHEMA, &json, &doc, true));
    assert_eq!(first, second);
    assert_eq!(
        validate_poem(SCHEMA, &json, &doc, false).is_ok(),
        validate_poem(SCHEMA, &json, &doc, false).is_ok()
    );
}

#[test]
fn schema_failure_comes_before_language_check() {
    let doc = mapping(vec![(text("v1"), version(Some(text("eng")), "..."))]);
    let staged = finish_validation(Err(PoemError::InvalidSchema("bad".to_string())), &doc, true);
    assert_eq!(message_of(staged), "Invalid schema: bad");
    assert!(finish_validation(Ok(()), &doc, true).is_ok());
    let bad = mapping(vec![(text("v1"), version(Some(text("qqq-Latn")), "..."))]);
    assert!(finish_validation(Ok(()), &bad, false).is_ok());
    assert!(finish_validation(Ok(()), &bad, true).is_err());
}

#[test]
fn document_error_message() {
    let e = PoemError::InvalidDocument("eof".to_string());
    assert_eq!(e.message(), "Invalid document: eof");
}

#[test]
fn tagged_version_is_looked_through() {
    let tagged = Node::Tagged { tag: "!version".to_string(), value: Box::new(version(Some(text("eng")), "...")) };
    let doc = mapping(vec![(text("v1"), tagged)]);
    assert!(validate_language_codes(&doc).is_ok());
    let bad = Node::Tagged { tag: "!version".to_string(), value: Box::new(version(Some(text("xx")), "...")) };
    let doc = mapping(vec![(text("v1"), bad)]);
    assert_eq!(message_of(validate_language_codes(&doc)), "Invalid language tag 'xx' in version 'v1'");
}

#[test]
fn tagged_language_is_not_text() {
    let language = Node::Tagged { tag: "!lang".to_string(), value: Box::new(text("eng")) };
    let doc = mapping(vec![(text("v1"), version(Some(language), "..."))]);
    match validate_language_codes(&doc) {
        Err(PoemError::LanguageNotText(v)) => assert_eq!(v, "v1"),
        _ => panic!("expected a language that is not text"),
    }
}

#[test]
fn tagged_document_is_not_checked() {
    let inner = mapping(vec![(text("v1"), version(None, "..."))]);
    let doc = Node::Tagged { tag: "!poem".to_string(), value: Box::new(inner) };
    assert!(validate_language_codes(&doc).is_ok());
}

#[test]
fn refused_schema_is_reported_as_invalid_schema() {
    let (doc, json) = two_versions();
    let m = message_of(validate_poem(r#"{"type": "no such type"}"#, &json, &doc, false));
    assert!(m.starts_with("Invalid schema: "));
    let m = message_of(validate_poem("[1, 2", &json, &doc, true));
    assert!(m.starts_with("Invalid schema: "));
}

#[test]
fn validating_schema_twice_gives_the_same_messages() {
    let json = r#"{"v1": {"language": "eng"}, "v2": {"text": 3}}"#;
    let first = message_of(validate_schema(SCHEMA, json));
    let second = message_of(validate_schema(SCHEMA, json));
    assert_eq!(first, second);
    assert!(first.starts_with("Schema validation failed:"));
}
