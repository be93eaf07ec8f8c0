//! The document index: one row per source document with its ingest status.

use vstd::prelude::*;
use vstd::string::StringExecFns;
use crate::document_detail::{any_status_has, IndexingDto};
use crate::text::{
    ascii_lowercase, contains_str, decimal, push_decimal, push_zero_padded, str_eq, zero_pad,
};

verus! {

/// A row of the document index.
#[derive(Debug, Clone)]
pub struct DocumentListItemDto {
    /// Set once the document has been ingested at least once.
    pub document_id: Option<u128>,
    pub source_ref_key: String,
    pub title: String,
    pub document_type: String,
    pub latest_version: Option<u32>,
    pub indexings: Vec<IndexingDto>,
}

fn any_indexing_has(indexings: &Vec<IndexingDto>, word: &str) -> (b: bool)
    ensures
        b == any_status_has(indexings@, word@),
{
    let mut k: usize = 0;
    while k < indexings.len()
        invariant
            k <= indexings.len(),
            forall|m: int|
                0 <= m < k ==> !crate::text::has_substring(#[trigger] indexings@[m].status@, word@),
        decreases indexings.len() - k,
    {
        if contains_str(indexings[k].status.as_str(), word) {
            return true;
        }
        k += 1;
    }
    false
}

/// The ingest status label and colour class of an index row.
pub open spec fn ingest_status_spec(doc: DocumentListItemDto) -> (Seq<char>, Seq<char>) {
    if doc.document_id is None {
        ("NEVER_INGESTED"@, "text-amber-500/80"@)
    } else if doc.indexings@.len() == 0 {
        ("REGISTERED"@, "text-blue-400/80"@)
    } else if any_status_has(doc.indexings@, "Indexed"@) {
        ("INDEXED"@, "text-emerald-500/80"@)
    } else if any_status_has(doc.indexings@, "Failed"@) {
        ("FAILED"@, "text-red-500/80"@)
    } else {
        ("IN_PROGRESS"@, "text-amber-500/80"@)
    }
}

/// The ingest status of a document: never ingested, registered without
/// indexings, indexed if any indexing is, failed if any failed, else in
/// progress.
pub fn ingest_status(doc: &DocumentListItemDto) -> (r: (&'static str, &'static str))
    ensures
        r.0@ == ingest_status_spec(*doc).0,
        r.1@ == ingest_status_spec(*doc).1,
{
    if doc.document_id.is_none() {
        ("NEVER_INGESTED", "text-amber-500/80")
    } else if doc.indexings.len() == 0 {
        ("REGISTERED", "text-blue-400/80")
    } else if any_indexing_has(&doc.indexings, "Indexed") {
        ("INDEXED", "text-emerald-500/80")
    } else if any_indexing_has(&doc.indexings, "Failed") {
        ("FAILED", "text-red-500/80")
    } else {
        ("IN_PROGRESS", "text-amber-500/80")
    }
}

/// How a document type is named in the index.
pub fn document_type_label(doc_type: &str) -> (r: &'static str)
    ensures
        r@ == (if doc_type@ == "BlogPost"@ {
            "BLOG_POST"@
        } else {
            "DOCUMENT"@
        }),
{
    if str_eq(doc_type, "BlogPost") {
        "BLOG_POST"
    } else {
        "DOCUMENT"
    }
}

/// What `str::to_lowercase` gives for a text: its lower-case equivalent by
/// the Unicode `Lowercase` mapping.
pub uninterp spec fn unicode_lowercase(s: Seq<char>) -> Seq<char>;

/// Whether every character of `s` is ASCII.
pub open spec fn all_ascii(s: Seq<char>) -> bool {
    forall|i: int| 0 <= i < s.len() ==> (#[trigger] s[i] as u32) < 128
}

/// `str::to_lowercase`. The result is `unicode_lowercase(s)`; of it, this
/// states what the documentation plainly gives for ASCII text, where the
/// Unicode mapping lowers `A..=Z` and keeps everything else.
#[verifier::external_body]
fn to_lowercase(s: &str) -> (r: String)
    ensures
        r@ == unicode_lowercase(s@),
        all_ascii(s@) ==> r@ == ascii_lowercase(s@),
{
    s.to_lowercase()
}

/// The link of an index row: `/documents/<type, lower-case>/<reference>`.
pub fn document_href(doc: &DocumentListItemDto) -> (r: String)
    ensures
        r@ == "/documents/"@ + unicode_lowercase(doc.document_type@) + "/"@ + doc.source_ref_key@,
        all_ascii(doc.document_type@) ==> r@ == "/documents/"@ + ascii_lowercase(
            doc.document_type@,
        ) + "/"@ + doc.source_ref_key@,
{
    let mut r = String::from_str("/documents/");
    let lower = to_lowercase(doc.document_type.as_str());
    r.append(lower.as_str());
    r.append("/");
    r.append(doc.source_ref_key.as_str());
    r
}

/// The reference column of an index row, `./<reference>`.
pub fn reference_label(source_ref_key: &str) -> (r: String)
    ensures
        r@ == "./"@ + source_ref_key@,
{
    let mut r = String::from_str("./");
    r.append(source_ref_key);
    r
}

/// The version column of an index row: `v<n>`, or a dash before the first
/// ingest.
pub fn latest_version_label(version: Option<u32>) -> (r: String)
    ensures
        r@ == (match version {
            Some(v) => "v"@ + decimal(v as nat),
            None => "—"@,
        }),
{
    match version {
        Some(v) => {
            let mut r = String::from_str("v");
            push_decimal(&mut r, v as u64);
            r
        },
        None => String::from_str("—"),
    }
}

/// The footer of the index: the row count, zero-padded to three digits.
pub fn total_records_label(total: usize) -> (r: String)
    ensures
        r@ == "TOTAL_RECORDS: "@ + zero_pad(decimal(total as nat), 3),
{
    let mut r = String::from_str("TOTAL_RECORDS: ");
    push_zero_padded(&mut r, total as u64, 3);
    r
}

} // verus!
