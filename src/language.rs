//! The strict language check: every version names a language tag that the
//! code tables accept.
use vstd::prelude::*;
use crate::document::{Entry, Node, get_field, key_label};
use crate::error::{Failure, PoemError};
use crate::tag::{is_valid_language_tag, tag_accepted};

verus! {

/// What is wrong with one version entry, if anything.
pub open spec fn version_fault(entry: Entry) -> Option<Failure> {
    let version = key_label(entry.key);
    match get_field(entry.value, "language"@) {
        None => Some(Failure::MissingLanguage(version)),
        Some(Node::Text(tag)) => if tag_accepted(tag@) {
            None
        } else {
            Some(Failure::InvalidLanguageTag { tag: tag@, version })
        },
        Some(_) => Some(Failure::LanguageNotText(version)),
    }
}

/// The fault of the first faulty entry at or after `i`.
pub open spec fn first_fault(entries: Seq<Entry>, i: int) -> Option<Failure>
    decreases entries.len() - i,
{
    if i < 0 || i >= entries.len() {
        None
    } else {
        match version_fault(entries[i]) {
            Some(f) => Some(f),
            None => first_fault(entries, i + 1),
        }
    }
}

/// The outcome of the strict check: the first faulty version of a mapping
/// decides; a document that is no mapping is not checked.
pub open spec fn language_verdict(doc: Node) -> Option<Failure> {
    match doc {
        Node::Mapping(entries) => first_fault(entries@, 0),
        _ => None,
    }
}

/// Checks one version entry.
fn check_version(entry: &Entry, language: &String) -> (r: Result<(), PoemError>)
    requires
        language@ == "language"@,
    ensures
        match r {
            Ok(()) => version_fault(*entry) is None,
            Err(e) => version_fault(*entry) == Some(e@),
        },
{
    match entry.value.find_field(language) {
        None => Err(PoemError::MissingLanguage(entry.key.label())),
        Some(i) => {
            let entries = match entry.value.untagged() {
                Node::Mapping(es) => es,
                _ => { return Err(PoemError::MissingLanguage(entry.key.label())); },
            };
            match &entries[i].value {
                Node::Text(tag) => {
                    if is_valid_language_tag(tag.as_str()) {
                        Ok(())
                    } else {
                        Err(PoemError::InvalidLanguageTag { tag: tag.clone(), version: entry.key.label() })
                    }
                },
                _ => Err(PoemError::LanguageNotText(entry.key.label())),
            }
        },
    }
}

/// Checks that every version of the document declares an accepted language
/// tag, stopping at the first version that does not.
pub fn validate_language_codes(doc: &Node) -> (r: Result<(), PoemError>)
    ensures
        match r {
            Ok(()) => language_verdict(*doc) is None,
            Err(e) => language_verdict(*doc) == Some(e@),
        },
{
    match doc {
        Node::Mapping(entries) => {
            let language = String::from_str("language");
            let mut i: usize = 0;
            while i < entries.len()
                invariant
                    i <= entries@.len(),
                    language@ == "language"@,
                    *doc == Node::Mapping(*entries),
                    first_fault(entries@, 0) == first_fault(entries@, i as int),
                decreases entries@.len() - i,
            {
                match check_version(&entries[i], &language) {
                    Ok(()) => {},
                    Err(e) => {
                        return Err(e);
                    },
                }
                i = i + 1;
            }
            Ok(())
        },
        _ => Ok(()),
    }
}

/// In strict mode, a version without a `language` field is reported as such,
/// under its own label, whatever the versions after it hold, provided every
/// version before it passes.
pub proof fn lemma_missing_language_reported(doc: Node, i: int)
    requires
        doc is Mapping,
        0 <= i < doc->Mapping_0@.len(),
        get_field(doc->Mapping_0@[i].value, "language"@) is None,
        forall|j: int| 0 <= j < i ==> version_fault(#[trigger] doc->Mapping_0@[j]) is None,
    ensures
        language_verdict(doc) == Some(Failure::MissingLanguage(key_label(doc->Mapping_0@[i].key))),
{
    let entries = doc->Mapping_0@;
    lemma_first_fault_skips(entries, 0, i);
}

proof fn lemma_first_fault_skips(entries: Seq<Entry>, k: int, i: int)
    requires
        0 <= k <= i <= entries.len(),
        forall|j: int| 0 <= j < i ==> version_fault(#[trigger] entries[j]) is None,
    ensures
        first_fault(entries, k) == first_fault(entries, i),
    decreases i - k,
{
    if k < i {
        lemma_first_fault_skips(entries, k + 1, i);
    }
}

} // verus!
