//! Validation failures and the messages that report them.
use vstd::prelude::*;

verus! {

/// Why a document was not accepted.
pub enum PoemError {
    /// The schema is not JSON, or is not a valid schema; holds the reason.
    InvalidSchema(String),
    /// The document's JSON text could not be read; holds the reason.
    InvalidDocument(String),
    /// Every violation of the schema, in the order the schema engine gave them.
    SchemaViolations(Vec<String>),
    /// A version without a `language` field; holds the version's label.
    MissingLanguage(String),
    /// A version whose `language` field is not text; holds the version's label.
    LanguageNotText(String),
    /// A language tag that the code tables do not accept.
    InvalidLanguageTag { tag: String, version: String },
}

/// The mathematical value of a [`PoemError`].
pub enum Failure {
    InvalidSchema(Seq<char>),
    InvalidDocument(Seq<char>),
    SchemaViolations(Seq<Seq<char>>),
    MissingLanguage(Seq<char>),
    LanguageNotText(Seq<char>),
    InvalidLanguageTag { tag: Seq<char>, version: Seq<char> },
}

impl View for PoemError {
    type V = Failure;

    open spec fn view(&self) -> Failure {
        match self {
            PoemError::InvalidSchema(m) => Failure::InvalidSchema(m@),
            PoemError::InvalidDocument(m) => Failure::InvalidDocument(m@),
            PoemError::SchemaViolations(ms) => Failure::SchemaViolations(ms@.map_values(|m: String| m@)),
            PoemError::MissingLanguage(v) => Failure::MissingLanguage(v@),
            PoemError::LanguageNotText(v) => Failure::LanguageNotText(v@),
            PoemError::InvalidLanguageTag { tag, version } => Failure::InvalidLanguageTag {
                tag: tag@,
                version: version@,
            },
        }
    }
}

/// Each message on a line of its own, marked as a list item.
pub open spec fn bullet_list(ms: Seq<Seq<char>>) -> Seq<char>
    decreases ms.len(),
{
    if ms.len() == 0 {
        Seq::empty()
    } else {
        bullet_list(ms.drop_last()) + "\n  \u{2716} "@ + ms.last()
    }
}

/// The text that reports a failure.
pub open spec fn failure_text(f: Failure) -> Seq<char> {
    match f {
        Failure::InvalidSchema(m) => "Invalid schema: "@ + m,
        Failure::InvalidDocument(m) => "Invalid document: "@ + m,
        Failure::SchemaViolations(ms) => "Schema validation failed:"@ + bullet_list(ms),
        Failure::MissingLanguage(v) => "Missing required language property in version '"@ + v
            + "' (required with strict language checking)"@,
        Failure::LanguageNotText(v) => "Language property must be a string in version '"@ + v
            + "'"@,
        Failure::InvalidLanguageTag { tag, version } => "Invalid language tag '"@ + tag
            + "' in version '"@ + version + "'"@,
    }
}

impl PoemError {
    /// The text that reports this failure to a user.
    pub fn message(&self) -> (r: String)
        ensures
            r@ == failure_text(self@),
    {
        match self {
            PoemError::InvalidSchema(m) => String::from_str("Invalid schema: ").concat(m.as_str()),
            PoemError::InvalidDocument(m) => String::from_str("Invalid document: ").concat(
                m.as_str(),
            ),
            PoemError::SchemaViolations(ms) => {
                let mut r = String::from_str("Schema validation failed:");
                let mut i: usize = 0;
                while i < ms.len()
                    invariant
                        i <= ms@.len(),
                        r@ == "Schema validation failed:"@ + bullet_list(
                            ms@.map_values(|m: String| m@).subrange(0, i as int),
                        ),
                    decreases ms@.len() - i,
                {
                    let ghost views = ms@.map_values(|m: String| m@);
                    assert(views.subrange(0, i + 1).drop_last() =~= views.subrange(0, i as int));
                    r.append("\n  \u{2716} ");
                    r.append(ms[i].as_str());
                    i = i + 1;
                }
                assert(ms@.map_values(|m: String| m@).subrange(0, ms@.len() as int)
                    =~= ms@.map_values(|m: String| m@));
                r
            },
            PoemError::MissingLanguage(v) => String::from_str(
                "Missing required language property in version '",
            ).concat(v.as_str()).concat("' (required with strict language checking)"),
            PoemError::LanguageNotText(v) => String::from_str(
                "Language property must be a string in version '",
            ).concat(v.as_str()).concat("'"),
            PoemError::InvalidLanguageTag { tag, version } => String::from_str(
                "Invalid language tag '",
            ).concat(tag.as_str()).concat("' in version '").concat(version.as_str()).concat("'"),
        }
    }
}

} // verus!
