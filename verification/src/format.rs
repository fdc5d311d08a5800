//! Short texts for ages and label sets.

use crate::string_map::{entries, listing};
use crate::text::{join, joined, lemma_texts_push, texts};
use std::collections::BTreeMap;
use vstd::prelude::*;
use vstd::string::*;

verus! {

/// One label as `key=value`.
pub open spec fn label_text(entry: (String, String)) -> Seq<char> {
    entry.0@ + "="@ + entry.1@
}

/// A label set on one line: `<none>` for an empty set, otherwise every
/// label as `key=value`, in ascending key order, separated by commas.
pub open spec fn labels_text(labels: Map<String, String>) -> Seq<char> {
    if labels.is_empty() {
        "<none>"@
    } else {
        joined(listing(labels).map_values(|e: (String, String)| label_text(e)), ","@)
    }
}

/// The age column: the timestamp as given, or `Unknown` without one.
pub fn format_age(timestamp: Option<String>) -> (out: String)
    ensures
        out@ == match timestamp {
            Some(t) => t@,
            None => "Unknown"@,
        },
{
    match timestamp {
        Some(t) => t,
        None => "Unknown".to_owned(),
    }
}

/// The label column: see [`labels_text`].
pub fn format_labels(labels: &BTreeMap<String, String>) -> (out: String)
    ensures
        out@ == labels_text(labels@),
{
    if labels.is_empty() {
        return "<none>".to_owned();
    }
    let listed = entries(labels);
    let mut parts: Vec<String> = Vec::new();
    let mut i: usize = 0;
    while i < listed.len()
        invariant
            i <= listed.len(),
            texts(parts@) == listed@.take(i as int).map_values(|e: (String, String)| label_text(e)),
        decreases listed.len() - i,
    {
        let mut part = listed[i].0.clone();
        part.append("=");
        part.append(listed[i].1.as_str());
        proof {
            assert(part@ =~= label_text(listed[i as int]));
            lemma_texts_push(
                parts@,
                part,
                listed@,
                |e: (String, String)| label_text(e),
                i as int,
            );
        }
        parts.push(part);
        i += 1;
    }
    assert(listed@.take(i as int) =~= listed@);
    join(&parts, ",")
}

} // verus!
