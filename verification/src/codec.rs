//! Labels as JSON text, the form in which a backup record holds them.
//!
//! Writing and reading JSON is `serde_json`'s work. What it writes for a map
//! and what it reads from a text are named here, so that contracts can say
//! exactly which text is stored and which labels a stored text stands for.

use crate::strmap::StrMap;
use std::collections::BTreeMap;
use vstd::prelude::*;

verus! {

/// `serde_json::Error`, which this crate only hands on.
#[verifier::external_type_specification]
#[verifier::external_body]
pub struct ExJsonError(serde_json::Error);

/// The JSON text that `serde_json::to_string` writes for a map from strings to
/// strings, or `None` where it reports an error.
pub uninterp spec fn encoded_labels(labels: Map<Seq<char>, Seq<char>>) -> Option<Seq<char>>;

/// The map from strings to strings that `serde_json::from_str` reads from a
/// text, or `None` where it reports an error.
pub uninterp spec fn decoded_labels(text: Seq<char>) -> Option<Map<Seq<char>, Seq<char>>>;

/// Calls `serde_json::to_string` on the labels as a `BTreeMap`. Trusted: the
/// outcome depends on the mapping alone, not on the order of the entries.
#[verifier::external_body]
pub(crate) fn labels_to_json(labels: &StrMap) -> (outcome: Result<String, serde_json::Error>)
    ensures
        match outcome {
            Ok(text) => encoded_labels(labels@) == Some(text@),
            Err(_) => encoded_labels(labels@) is None,
        },
{
    let map: BTreeMap<String, String> = labels.entries.iter().cloned().collect();
    serde_json::to_string(&map)
}

/// Calls `serde_json::from_str` for a `BTreeMap` of strings, whose entries
/// have distinct keys. Trusted: the outcome depends on the text alone.
#[verifier::external_body]
pub(crate) fn labels_from_json(text: &str) -> (outcome: Result<StrMap, serde_json::Error>)
    ensures
        match outcome {
            Ok(labels) => decoded_labels(text@) == Some(labels@),
            Err(_) => decoded_labels(text@) is None,
        },
{
    match serde_json::from_str::<BTreeMap<String, String>>(text) {
        Ok(map) => Ok(StrMap { entries: map.into_iter().collect() }),
        Err(e) => Err(e),
    }
}

/// The JSON text written for `labels` is read back as `labels`.
pub open spec fn reads_back(labels: Map<Seq<char>, Seq<char>>) -> bool {
    match encoded_labels(labels) {
        Some(text) => decoded_labels(text) == Some(labels),
        None => false,
    }
}

/// Writes `labels` as JSON, reads the text back and says whether the same
/// labels came out: whether a backup of these labels can be restored.
pub fn survives_backup(labels: &StrMap) -> (survives: bool)
    ensures
        survives == reads_back(labels@),
{
    match labels_to_json(labels) {
        Ok(text) => match labels_from_json(text.as_str()) {
            Ok(read) => read == *labels,
            Err(_) => false,
        },
        Err(_) => false,
    }
}

} // verus!
