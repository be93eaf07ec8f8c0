//! The document detail page: header and status derivation, the indexings
//! table with its per-stage controls, and the evaluation tab.

use vstd::prelude::*;
use vstd::string::StringExecFns;
use vstd::string::StringSliceAdditionalSpecFns;
use vstd::utf8::{encode_utf8, is_char_boundary};
use crate::primitives::Status;
use crate::commands::short_uuid;
use crate::ids::uuid_text;
use crate::text::{
    byte_prefix, byte_prefix_text, contains_str, decimal, has_substring, push_decimal, str_eq,
};

verus! {

/// One indexing of a document into a pipeline.
#[derive(Debug, Clone)]
pub struct IndexingDto {
    pub indexing_id: u128,
    pub pipeline_configuration_id: u128,
    /// The read model's status text, such as `Chunking` or `Indexed`.
    pub status: String,
    pub document_version: u32,
}

/// A registered source document.
#[derive(Debug, Clone)]
pub struct SourceDocumentDto {
    pub document_id: u128,
    pub document_type: String,
    pub source_ref_key: String,
    pub title: String,
    pub latest_version: u32,
    pub latest_content_hash: String,
}

/// The status pill of one indexing row.
pub open spec fn status_display_spec(status: Seq<char>) -> (Status, Seq<char>) {
    if has_substring(status, "Indexed"@) {
        (Status::Success, "Indexed"@)
    } else if has_substring(status, "Failed"@) {
        (Status::Fail, "Failed"@)
    } else if has_substring(status, "Embedding"@) {
        (Status::Pending, "Embedded"@)
    } else if has_substring(status, "Chunking"@) {
        (Status::Pending, "Chunked"@)
    } else {
        (Status::Pending, "Pending"@)
    }
}

/// The pill (bucket and label) for an indexing's status text.
pub fn status_display(status: &str) -> (r: (Status, &'static str))
    ensures
        r.0 == status_display_spec(status@).0,
        r.1@ == status_display_spec(status@).1,
{
    if contains_str(status, "Indexed") {
        (Status::Success, "Indexed")
    } else if contains_str(status, "Failed") {
        (Status::Fail, "Failed")
    } else if contains_str(status, "Embedding") {
        (Status::Pending, "Embedded")
    } else if contains_str(status, "Chunking") {
        (Status::Pending, "Chunked")
    } else {
        (Status::Pending, "Pending")
    }
}

/// Whether some indexing's status text contains `word`.
pub open spec fn any_status_has(indexings: Seq<IndexingDto>, word: Seq<char>) -> bool {
    exists|i: int| 0 <= i < indexings.len() && has_substring(#[trigger] indexings[i].status@, word)
}

fn any_status_contains(indexings: &[IndexingDto], word: &str) -> (b: bool)
    ensures
        b == any_status_has(indexings@, word@),
{
    let mut k: usize = 0;
    while k < indexings.len()
        invariant
            k <= indexings.len(),
            forall|m: int| 0 <= m < k ==> !has_substring(#[trigger] indexings@[m].status@, word@),
        decreases indexings.len() - k,
    {
        if contains_str(indexings[k].status.as_str(), word) {
            return true;
        }
        k += 1;
    }
    false
}

/// The document-level status: the most advanced state any indexing reached.
pub open spec fn derive_status_spec(indexings: Seq<IndexingDto>) -> (Status, Seq<char>) {
    if indexings.len() == 0 {
        (Status::Info, "Registered"@)
    } else if any_status_has(indexings, "Indexed"@) {
        (Status::Success, "Indexed"@)
    } else if any_status_has(indexings, "Failed"@) {
        (Status::Fail, "Failed"@)
    } else if any_status_has(indexings, "Embedding"@) {
        (Status::Info, "Embedded"@)
    } else if any_status_has(indexings, "Chunking"@) {
        (Status::Info, "Chunked"@)
    } else {
        (Status::Pending, "Pending"@)
    }
}

/// The status pill of a document, derived from its indexings: registered
/// without any, else indexed if one is, else failed if one failed, else the
/// furthest stage reached.
pub fn derive_status(indexings: &[IndexingDto]) -> (r: (Status, String))
    ensures
        r.0 == derive_status_spec(indexings@).0,
        r.1@ == derive_status_spec(indexings@).1,
{
    if indexings.len() == 0 {
        (Status::Info, String::from_str("Registered"))
    } else if any_status_contains(indexings, "Indexed") {
        (Status::Success, String::from_str("Indexed"))
    } else if any_status_contains(indexings, "Failed") {
        (Status::Fail, String::from_str("Failed"))
    } else if any_status_contains(indexings, "Embedding") {
        (Status::Info, String::from_str("Embedded"))
    } else if any_status_contains(indexings, "Chunking") {
        (Status::Info, String::from_str("Chunked"))
    } else {
        (Status::Pending, String::from_str("Pending"))
    }
}

/// How a document type is named on the detail page.
pub open spec fn type_label_spec(doc_type: Seq<char>) -> Seq<char> {
    if doc_type == "BlogPost"@ {
        "Blog post"@
    } else {
        "Document"@
    }
}

pub fn document_type_label(doc_type: &str) -> (r: &'static str)
    ensures
        r@ == type_label_spec(doc_type@),
{
    if str_eq(doc_type, "BlogPost") {
        "Blog post"
    } else {
        "Document"
    }
}

/// Whether a content hash can be shortened: it has more than twelve bytes.
pub open spec fn hash_is_long(hash: Seq<char>) -> bool {
    encode_utf8(hash).len() > 12
}

/// The first twelve bytes of a content hash; a short hash stays whole. A long
/// hash must not split a character at byte twelve.
pub fn short_hash(hash: &str) -> (r: &str)
    requires
        encode_utf8(hash@).len() <= usize::MAX,
        hash_is_long(hash@) ==> is_char_boundary(hash.spec_bytes(), 12),
    ensures
        r@ == (if hash_is_long(hash@) {
            byte_prefix_text(hash@, 12)
        } else {
            hash@
        }),
{
    if hash.len() > 12 {
        byte_prefix(hash, 12)
    } else {
        hash
    }
}

/// The header of a document page: breadcrumb, title, subtitle and status.
pub struct DocumentHeader {
    pub eyebrow: String,
    pub title: String,
    pub subtitle: Option<String>,
    pub status: (Status, String),
}

/// Builds the document page header.
pub fn derive_header(doc: &SourceDocumentDto, indexings: &[IndexingDto]) -> (h: DocumentHeader)
    requires
        encode_utf8(doc.latest_content_hash@).len() <= usize::MAX,
        hash_is_long(doc.latest_content_hash@) ==> is_char_boundary(
            encode_utf8(doc.latest_content_hash@),
            12,
        ),
    ensures
        h.eyebrow@ == "Documents / "@ + type_label_spec(doc.document_type@) + " / "@
            + doc.source_ref_key@,
        h.title@ == doc.title@,
        h.subtitle matches Some(sub) && sub@ == type_label_spec(doc.document_type@) + " · v"@
            + decimal(doc.latest_version as nat) + " · "@ + (if hash_is_long(
            doc.latest_content_hash@,
        ) {
            byte_prefix_text(doc.latest_content_hash@, 12)
        } else {
            doc.latest_content_hash@
        }),
        h.status.0 == derive_status_spec(indexings@).0,
        h.status.1@ == derive_status_spec(indexings@).1,
{
    let type_label = document_type_label(doc.document_type.as_str());
    let mut eyebrow = String::from_str("Documents / ");
    eyebrow.append(type_label);
    eyebrow.append(" / ");
    eyebrow.append(doc.source_ref_key.as_str());
    let mut subtitle = String::from_str(type_label);
    subtitle.append(" · v");
    push_decimal(&mut subtitle, doc.latest_version as u64);
    subtitle.append(" · ");
    subtitle.append(short_hash(doc.latest_content_hash.as_str()));
    DocumentHeader {
        eyebrow,
        title: doc.title.clone(),
        subtitle: Some(subtitle),
        status: derive_status(indexings),
    }
}

/// How far an indexing has come through the chunk, embed and index stages.
#[derive(Debug, Clone, Copy, PartialEq, Eq, Structural)]
pub struct StageProgress {
    pub chunked: bool,
    pub embedded: bool,
    pub indexed: bool,
}

/// The stages that an indexing's status text shows as done.
pub open spec fn stage_progress_spec(status: Seq<char>) -> StageProgress {
    StageProgress {
        chunked: has_substring(status, "Chunking"@) || has_substring(status, "Embedding"@)
            || has_substring(status, "Indexed"@),
        embedded: has_substring(status, "Embedding"@) || has_substring(status, "Indexed"@),
        indexed: has_substring(status, "Indexed"@),
    }
}

/// Which stages of an indexing are done. A later stage is never done before
/// an earlier one.
pub fn stage_progress(status: &str) -> (p: StageProgress)
    ensures
        p == stage_progress_spec(status@),
        p.indexed ==> p.embedded,
        p.embedded ==> p.chunked,
{
    let indexed = contains_str(status, "Indexed");
    let embedding = contains_str(status, "Embedding");
    let chunking = contains_str(status, "Chunking");
    StageProgress {
        chunked: chunking || embedding || indexed,
        embedded: embedding || indexed,
        indexed,
    }
}

/// Why the embed stage cannot start yet, if it cannot.
pub fn embed_blocked_reason(p: StageProgress) -> (r: Option<String>)
    ensures
        match r {
            Some(m) => !p.chunked && m@ == "Chunk first"@,
            None => p.chunked,
        },
{
    if !p.chunked {
        Some(String::from_str("Chunk first"))
    } else {
        None
    }
}

/// Why the index stage cannot start yet, if it cannot.
pub fn index_blocked_reason(p: StageProgress) -> (r: Option<String>)
    ensures
        match r {
            Some(m) => !p.embedded && m@ == "Embed first"@,
            None => p.embedded,
        },
{
    if !p.embedded {
        Some(String::from_str("Embed first"))
    } else {
        None
    }
}

/// The class list of a stage button.
pub fn stage_button_class(done: bool, busy: bool, blocked: bool, any_busy: bool) -> (r: &'static str)
    ensures
        r@ == (if done {
            "btn text-xs px-2 py-1 btn-ghost"@
        } else if busy {
            "btn text-xs px-2 py-1 btn-primary"@
        } else if blocked || any_busy {
            "btn text-xs px-2 py-1 opacity-50"@
        } else {
            "btn text-xs px-2 py-1 btn-primary"@
        }),
{
    if done {
        "btn text-xs px-2 py-1 btn-ghost"
    } else if busy {
        "btn text-xs px-2 py-1 btn-primary"
    } else if blocked || any_busy {
        "btn text-xs px-2 py-1 opacity-50"
    } else {
        "btn text-xs px-2 py-1 btn-primary"
    }
}

/// A stage button is disabled while any stage runs or while it is blocked.
pub fn stage_button_disabled(any_busy: bool, blocked: bool) -> (r: bool)
    ensures
        r == (any_busy || blocked),
{
    any_busy || blocked
}

/// The caption of a stage button: an ellipsis while it runs, a tick once
/// done.
pub fn stage_button_label(label: &str, busy: bool, done: bool) -> (r: String)
    ensures
        r@ == (if busy {
            label@ + "…"@
        } else if done {
            label@ + " ✓"@
        } else {
            label@
        }),
{
    let mut r = label.to_owned();
    if busy {
        r.append("…");
    } else if done {
        r.append(" ✓");
    }
    r
}

/// Whether a new indexing can be started.
pub fn can_start_indexing(pipeline_selected: bool, chunking_selected: bool, running: bool) -> (r:
    bool)
    ensures
        r == (pipeline_selected && chunking_selected && !running),
{
    pipeline_selected && chunking_selected && !running
}

/// The caption of the "create indexing" button.
pub fn new_indexing_button_label(
    running: bool,
    pipeline_selected: bool,
    chunking_selected: bool,
) -> (r: &'static str)
    ensures
        r@ == (if running {
            "Working…"@
        } else if !pipeline_selected {
            "Select a pipeline"@
        } else if !chunking_selected {
            "Select a chunking config"@
        } else {
            "Create — manual stages"@
        }),
{
    if running {
        "Working…"
    } else if !pipeline_selected {
        "Select a pipeline"
    } else if !chunking_selected {
        "Select a chunking config"
    } else {
        "Create — manual stages"
    }
}

/// The version column of an indexing row.
pub fn version_label(version: u32) -> (r: String)
    ensures
        r@ == "v"@ + decimal(version as nat),
{
    let mut r = String::from_str("v");
    push_decimal(&mut r, version as u64);
    r
}

/// The colour class and label of an evaluation dataset's or run's status.
pub open spec fn eval_status_spec(status: Seq<char>) -> (Seq<char>, Seq<char>) {
    if status == "completed"@ {
        ("text-emerald-500/80"@, "COMPLETED"@)
    } else if status == "failed"@ {
        ("text-red-500/80"@, "FAILED"@)
    } else if status == "running"@ {
        ("text-blue-400/80"@, "RUNNING"@)
    } else if status == "generating"@ {
        ("text-blue-400/80"@, "GENERATING"@)
    } else if status == "pending"@ {
        ("text-amber-500/80"@, "PENDING"@)
    } else {
        ("opacity-50"@, "UNKNOWN"@)
    }
}

pub fn eval_status_display(status: &str) -> (r: (&'static str, &'static str))
    ensures
        r.0@ == eval_status_spec(status@).0,
        r.1@ == eval_status_spec(status@).1,
{
    if str_eq(status, "completed") {
        ("text-emerald-500/80", "COMPLETED")
    } else if str_eq(status, "failed") {
        ("text-red-500/80", "FAILED")
    } else if str_eq(status, "running") {
        ("text-blue-400/80", "RUNNING")
    } else if str_eq(status, "generating") {
        ("text-blue-400/80", "GENERATING")
    } else if str_eq(status, "pending") {
        ("text-amber-500/80", "PENDING")
    } else {
        ("opacity-50", "UNKNOWN")
    }
}

/// The status pill of a run on its detail page.
pub fn run_status_display(status: &str) -> (r: (Status, &'static str))
    ensures
        status@ == "completed"@ ==> r.0 == Status::Success && r.1@ == "Completed"@,
        status@ != "completed"@ && status@ == "failed"@ ==> r.0 == Status::Fail && r.1@
            == "Failed"@,
        status@ != "completed"@ && status@ != "failed"@ && status@ == "running"@ ==> r.0
            == Status::Pending && r.1@ == "Running"@,
        status@ != "completed"@ && status@ != "failed"@ && status@ != "running"@ ==> r.0
            == Status::Neutral && r.1@ == "Unknown"@,
{
    if str_eq(status, "completed") {
        (Status::Success, "Completed")
    } else if str_eq(status, "failed") {
        (Status::Fail, "Failed")
    } else if str_eq(status, "running") {
        (Status::Pending, "Running")
    } else {
        (Status::Neutral, "Unknown")
    }
}

/// The date column of the run history: the first sixteen bytes of the
/// timestamp (date, hour and minute) when those end on a character boundary,
/// else the whole text.
pub fn date_short(created_at: &str) -> (r: &str)
    requires
        encode_utf8(created_at@).len() <= usize::MAX,
    ensures
        r@ == (if created_at.spec_bytes().len() >= 16 && is_char_boundary(
            created_at.spec_bytes(),
            16,
        ) {
            byte_prefix_text(created_at@, 16)
        } else {
            created_at@
        }),
{
    if created_at.len() >= 16 && created_at.is_char_boundary(16) {
        byte_prefix(created_at, 16)
    } else {
        created_at
    }
}

/// The label of a section-chunking variant of the given size.
pub fn section_variant_label(tokens: u32) -> (r: String)
    ensures
        r@ == "section:"@ + decimal(tokens as nat),
{
    let mut r = String::from_str("section:");
    push_decimal(&mut r, tokens as u64);
    r
}

/// The section sizes offered by the run launcher.
pub fn section_token_choices() -> (r: Vec<u32>)
    ensures
        r@ == seq![256u32, 384, 512, 768, 1024],
{
    let mut r = Vec::new();
    r.push(256);
    r.push(384);
    r.push(512);
    r.push(768);
    r.push(1024);
    assert(r@ =~= seq![256u32, 384, 512, 768, 1024]);
    r
}

/// Whether an evaluation run can start: a dataset and a pipeline are chosen.
pub fn can_run_evaluation(dataset_selected: bool, pipeline_selected: bool) -> (r: bool)
    ensures
        r == (dataset_selected && pipeline_selected),
{
    dataset_selected && pipeline_selected
}

/// The caption of the run launcher's button.
pub fn run_button_label(job_running: bool, can_run: bool) -> (r: &'static str)
    ensures
        r@ == (if job_running {
            "RUNNING..."@
        } else if !can_run {
            "SELECT_DATASET_AND_PIPELINE"@
        } else {
            "START_EVALUATION_RUN"@
        }),
{
    if job_running {
        "RUNNING..."
    } else if !can_run {
        "SELECT_DATASET_AND_PIPELINE"
    } else {
        "START_EVALUATION_RUN"
    }
}

/// Whether a background job has just finished: it ran at the previous check
/// and runs no more. Datasets and runs are fetched anew when it has.
pub fn job_just_finished(previous: Option<bool>, running: bool) -> (r: bool)
    ensures
        r == (previous == Some(true) && !running),
{
    match previous {
        Some(true) => !running,
        _ => false,
    }
}

/// The question count of a dataset row, such as `12Q`.
pub fn question_count_label(count: u32) -> (r: String)
    ensures
        r@ == decimal(count as nat) + "Q"@,
{
    let mut r = String::new();
    push_decimal(&mut r, count as u64);
    r.append("Q");
    r
}

/// The header of a run page: `run-<first eight characters of its id>`.
pub fn run_title(run_id: u128) -> (r: String)
    ensures
        r@ == "run-"@ + uuid_text(run_id).take(8),
{
    let short = short_uuid(run_id);
    let mut r = String::from_str("run-");
    r.append(short.as_str());
    r
}

/// The subtitle of a run page: `<n> variants · <created_at>`.
pub fn run_subtitle(variant_count: usize, created_at: &str) -> (r: String)
    ensures
        r@ == decimal(variant_count as nat) + " variants · "@ + created_at@,
{
    let mut r = String::new();
    push_decimal(&mut r, variant_count as u64);
    r.append(" variants · ");
    r.append(created_at);
    r
}

/// The size line of a variant card: `<n> chunks · avg <t> tokens`.
pub fn variant_card_stats(chunk_count: u32, average_tokens: u32) -> (r: String)
    ensures
        r@ == decimal(chunk_count as nat) + " chunks · avg "@ + decimal(average_tokens as nat)
            + " tokens"@,
{
    let mut r = String::new();
    push_decimal(&mut r, chunk_count as u64);
    r.append(" chunks · avg ");
    push_decimal(&mut r, average_tokens as u64);
    r.append(" tokens");
    r
}

/// The class of a variant card: the leader gets an accent border.
pub fn variant_card_class(leader: bool) -> (r: String)
    ensures
        r@ == (if leader {
            "surface-raised rounded p-4 "@ + "border-l-2 border-l-[var(--color-accent)]"@
        } else {
            "surface-raised rounded p-4 "@
        }),
{
    let mut r = String::from_str("surface-raised rounded p-4 ");
    if leader {
        r.append("border-l-2 border-l-[var(--color-accent)]");
    }
    r
}

/// The first position of `id` in `ids`.
pub open spec fn position_of(ids: Seq<u128>, id: u128) -> Option<int>
    decreases ids.len(),
{
    if ids.len() == 0 {
        None
    } else if ids[0] == id {
        Some(0)
    } else {
        match position_of(ids.drop_first(), id) {
            Some(i) => Some(i + 1),
            None => None,
        }
    }
}

proof fn lemma_position_of(ids: Seq<u128>, id: u128, k: int)
    requires
        0 <= k <= ids.len(),
        forall|m: int| 0 <= m < k ==> ids[m] != id,
    ensures
        k < ids.len() && ids[k] == id ==> position_of(ids, id) == Some(k),
        k == ids.len() ==> position_of(ids, id) is None,
    decreases k,
{
    if k > 0 {
        lemma_position_of(ids.drop_first(), id, k - 1);
    }
}

/// The chunking configuration a new indexing uses: the listed one whose
/// identifier is selected, by position; none when nothing is selected or the
/// selection is no longer listed.
pub fn resolve_chunking(ids: &[u128], active: Option<u128>) -> (r: Option<usize>)
    ensures
        match active {
            None => r is None,
            Some(id) => match position_of(ids@, id) {
                Some(i) => r matches Some(k) && k == i,
                None => r is None,
            },
        },
{
    let id = match active {
        None => {
            return None;
        },
        Some(id) => id,
    };
    let mut k: usize = 0;
    while k < ids.len()
        invariant
            k <= ids.len(),
            active == Some(id),
            forall|m: int| 0 <= m < k ==> ids@[m] != id,
        decreases ids.len() - k,
    {
        if ids[k] == id {
            proof {
                lemma_position_of(ids@, id, k as int);
            }
            return Some(k);
        }
        k += 1;
    }
    proof {
        lemma_position_of(ids@, id, k as int);
    }
    None
}

} // verus!
