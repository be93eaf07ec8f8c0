//! The post detail page: ingest controls, chunk preview cards, metadata and
//! the paged history of saved evaluation runs.

use vstd::prelude::*;
use vstd::string::StringExecFns;
use vstd::string::StringSliceAdditionalSpecFns;
use vstd::utf8::{encode_utf8, is_char_boundary};
use crate::evaluation::EvaluationRunOptions;
use crate::text::{
    append_chars, byte_prefix, byte_prefix_text, chars_of, decimal, push_decimal,
    push_zero_padded, slice_chars, zero_pad,
};
use crate::tuning::{ChunkStrategy, ChunkingConfig};

verus! {

/// A hash shortened for display: hashes of up to twelve bytes stay whole,
/// longer ones keep their first twelve bytes and gain `...`. A long hash must
/// not split a character at byte twelve.
pub fn short_hash(hash: &str) -> (r: String)
    requires
        encode_utf8(hash@).len() <= usize::MAX,
        encode_utf8(hash@).len() > 12 ==> is_char_boundary(hash.spec_bytes(), 12),
    ensures
        r@ == (if encode_utf8(hash@).len() <= 12 {
            hash@
        } else {
            byte_prefix_text(hash@, 12) + "..."@
        }),
{
    if hash.len() <= 12 {
        hash.to_owned()
    } else {
        let mut r = byte_prefix(hash, 12).to_owned();
        r.append("...");
        r
    }
}

/// `value` cut to at most `max_chars` characters; a cut text ends in `...`.
pub open spec fn truncate_spec(value: Seq<char>, max_chars: nat) -> Seq<char> {
    if value.len() > max_chars {
        value.take(max_chars as int) + "..."@
    } else {
        value
    }
}

/// Cuts `value` to at most `max_chars` characters, marking a cut with `...`.
pub fn truncate_chars(value: &str, max_chars: usize) -> (r: String)
    ensures
        r@ == truncate_spec(value@, max_chars as nat),
{
    let v = chars_of(value);
    if v.len() > max_chars {
        let head = slice_chars(v.as_slice(), 0, max_chars);
        assert(head@ =~= value@.take(max_chars as int));
        let mut r = String::new();
        append_chars(&mut r, head.as_slice());
        r.append("...");
        r
    } else {
        value.to_owned()
    }
}

/// How many characters of a glossary definition the metadata tab previews.
pub const GLOSSARY_DEFINITION_PREVIEW_CHARS: usize = 300;

/// The preview of a glossary definition on the metadata tab.
pub fn glossary_definition_preview(definition: &str) -> (r: String)
    ensures
        r@ == truncate_spec(definition@, 300),
{
    truncate_chars(definition, GLOSSARY_DEFINITION_PREVIEW_CHARS)
}

/// The options of an ingest request.
#[derive(Debug, Clone, Copy, PartialEq, Eq, Structural)]
pub struct IngestOptions {
    pub force: bool,
    pub dry_run: bool,
    pub chunking_override: Option<ChunkingConfig>,
}

/// The heading of the ingest confirmation.
pub fn ingest_operation_label(pending: Option<IngestOptions>) -> (r: &'static str)
    ensures
        r@ == (match pending {
            Some(o) => if o.force {
                "FORCE_REBUILD"@
            } else if o.dry_run {
                "DRY_RUN"@
            } else {
                "EXECUTE_INGEST"@
            },
            None => "EXECUTE_INGEST"@,
        }),
{
    match pending {
        Some(o) => if o.force {
            "FORCE_REBUILD"
        } else if o.dry_run {
            "DRY_RUN"
        } else {
            "EXECUTE_INGEST"
        },
        None => "EXECUTE_INGEST",
    }
}

pub open spec fn bool_text(b: bool) -> Seq<char> {
    if b {
        "true"@
    } else {
        "false"@
    }
}

/// The ingest that confirming the dialog starts: the pending one, unless an
/// ingest already runs or none is pending.
pub fn ingest_to_start(pending: Option<IngestOptions>, running: bool) -> (r: Option<IngestOptions>)
    ensures
        r == (if running {
            None
        } else {
            pending
        }),
{
    match pending {
        None => None,
        Some(options) => if running {
            None
        } else {
            Some(options)
        },
    }
}

/// What the page shows after the post's saved chunking override was
/// cleared, or failed to be.
pub fn clear_outcome(result: Result<(), String>) -> (r: (bool, String))
    ensures
        match result {
            Ok(_) => r.0 && r.1@ == "POST_CONFIG_CLEARED"@,
            Err(e) => !r.0 && r.1@ == "CLEAR_FAULT: "@ + e@,
        },
{
    match result {
        Ok(_) => (true, String::from_str("POST_CONFIG_CLEARED")),
        Err(e) => {
            let mut m = String::from_str("CLEAR_FAULT: ");
            m.append(e.as_str());
            (false, m)
        },
    }
}

/// The first log line of an ingest.
pub fn ingest_init_message(options: IngestOptions) -> (r: String)
    ensures
        r@ == "INIT_PROCESS: force_mode="@ + bool_text(options.force) + ", dry_run="@ + bool_text(
            options.dry_run,
        ) + ", override="@ + (if options.chunking_override is Some {
            "yes"@
        } else {
            "no"@
        }) + "..."@,
{
    let mut r = String::from_str("INIT_PROCESS: force_mode=");
    r.append(
        if options.force {
            "true"
        } else {
            "false"
        },
    );
    r.append(", dry_run=");
    r.append(
        if options.dry_run {
            "true"
        } else {
            "false"
        },
    );
    r.append(", override=");
    r.append(
        if options.chunking_override.is_some() {
            "yes"
        } else {
            "no"
        },
    );
    r.append("...");
    r
}

/// The freshness badge of a post.
#[derive(Debug, Clone, Copy, PartialEq, Eq, Structural)]
pub enum DirtyBadge {
    Dirty,
    UpToDate,
    Uninitialized,
}

/// A changed post is dirty; one with an ingest manifest is up to date;
/// otherwise it was never ingested.
pub fn dirty_badge(is_dirty: bool, has_manifest_version: bool) -> (r: DirtyBadge)
    ensures
        r == (if is_dirty {
            DirtyBadge::Dirty
        } else if has_manifest_version {
            DirtyBadge::UpToDate
        } else {
            DirtyBadge::Uninitialized
        }),
{
    if is_dirty {
        DirtyBadge::Dirty
    } else if has_manifest_version {
        DirtyBadge::UpToDate
    } else {
        DirtyBadge::Uninitialized
    }
}

/// The text of a freshness badge.
pub fn dirty_badge_label(b: DirtyBadge) -> (r: &'static str)
    ensures
        r@ == (match b {
            DirtyBadge::Dirty => "DIRTY"@,
            DirtyBadge::UpToDate => "UP TO DATE"@,
            DirtyBadge::Uninitialized => "UNINITIALIZED"@,
        }),
{
    match b {
        DirtyBadge::Dirty => "DIRTY",
        DirtyBadge::UpToDate => "UP TO DATE",
        DirtyBadge::Uninitialized => "UNINITIALIZED",
    }
}

/// What the footer of the ingest dialog offers.
#[derive(Debug, Clone, Copy, PartialEq, Eq, Structural)]
pub enum IngestFooter {
    /// The ingest runs; nothing to press.
    Running,
    /// Not started: cancel or confirm.
    Confirm,
    /// Finished: close.
    Close,
}

pub fn ingest_footer(running: bool, has_events: bool) -> (r: IngestFooter)
    ensures
        r == (if running {
            IngestFooter::Running
        } else if !has_events {
            IngestFooter::Confirm
        } else {
            IngestFooter::Close
        }),
{
    if running {
        IngestFooter::Running
    } else if !has_events {
        IngestFooter::Confirm
    } else {
        IngestFooter::Close
    }
}

// ---------------------------------------------------------------------------
// Chunk preview cards
// ---------------------------------------------------------------------------

/// The kind label of a previewed chunk.
pub fn chunk_prefix(is_glossary: bool) -> (r: &'static str)
    ensures
        r@ == (if is_glossary {
            "GLOSSARY"@
        } else {
            "POST_BODY"@
        }),
{
    if is_glossary {
        "GLOSSARY"
    } else {
        "POST_BODY"
    }
}

/// The size labels of a chunk card and whether the chunk is over its limit.
/// Token-based chunkers measure the limit in tokens, the section chunker in
/// characters.
pub struct ChunkSizeLabels {
    pub length_label: String,
    pub count_label: String,
    pub over_limit: bool,
}

pub fn chunk_size_labels(strategy: ChunkStrategy, text_length: u32, token_count: u32, size_limit: u32) -> (r:
    ChunkSizeLabels)
    ensures
        match strategy {
            ChunkStrategy::Section => {
                &&& r.length_label@ == "LENGTH: "@ + decimal(text_length as nat) + "/"@ + decimal(
                    size_limit as nat,
                ) + " CHARS"@
                &&& r.count_label@ == "TOKENS: "@ + decimal(token_count as nat)
                &&& r.over_limit == (text_length > size_limit)
            },
            _ => {
                &&& r.length_label@ == "LENGTH: "@ + decimal(text_length as nat) + " CHARS"@
                &&& r.count_label@ == "TOKENS: "@ + decimal(token_count as nat) + "/"@ + decimal(
                    size_limit as nat,
                )
                &&& r.over_limit == (token_count > size_limit)
            },
        },
{
    let mut length_label = String::from_str("LENGTH: ");
    push_decimal(&mut length_label, text_length as u64);
    let mut count_label = String::from_str("TOKENS: ");
    push_decimal(&mut count_label, token_count as u64);
    match strategy {
        ChunkStrategy::Section => {
            length_label.append("/");
            push_decimal(&mut length_label, size_limit as u64);
            length_label.append(" CHARS");
            ChunkSizeLabels { length_label, count_label, over_limit: text_length > size_limit }
        },
        _ => {
            length_label.append(" CHARS");
            count_label.append("/");
            push_decimal(&mut count_label, size_limit as u64);
            ChunkSizeLabels { length_label, count_label, over_limit: token_count > size_limit }
        },
    }
}

/// The class of a chunk card's count label: flagged when over the limit.
pub fn count_class(over_limit: bool) -> (r: &'static str)
    ensures
        r@ == (if over_limit {
            "log-line-error font-bold"@
        } else {
            "opacity-40"@
        }),
{
    if over_limit {
        "log-line-error font-bold"
    } else {
        "opacity-40"
    }
}

/// The class of the text/tokens switch of a chunk card.
pub fn tab_class(active: bool) -> (r: &'static str)
    ensures
        r@ == (if active {
            "tech-label px-2 py-0.5 border border-[var(--color-accent-strong)] bg-[var(--color-tag-bg)] cursor-pointer"@
        } else {
            "tech-label opacity-50 px-2 py-0.5 border border-[var(--color-border)] cursor-pointer"@
        }),
{
    if active {
        "tech-label px-2 py-0.5 border border-[var(--color-accent-strong)] bg-[var(--color-tag-bg)] cursor-pointer"
    } else {
        "tech-label opacity-50 px-2 py-0.5 border border-[var(--color-border)] cursor-pointer"
    }
}

/// The length label of a stored document chunk.
pub fn text_length_label(text_length: usize) -> (r: String)
    ensures
        r@ == "TEXT_LENGTH: "@ + decimal(text_length as nat) + " CHARS"@,
{
    let mut r = String::from_str("TEXT_LENGTH: ");
    push_decimal(&mut r, text_length as u64);
    r.append(" CHARS");
    r
}

/// The sequence label of a stored document chunk, zero-padded to three
/// digits.
pub fn sequence_label(sequence: u32) -> (r: String)
    ensures
        r@ == "SEQ: "@ + zero_pad(decimal(sequence as nat), 3),
{
    let mut r = String::from_str("SEQ: ");
    push_zero_padded(&mut r, sequence as u64, 3);
    r
}

/// A count shown with at least two digits, after a caption such as
/// `TERMS [`.
pub fn bracketed_count(caption: &str, count: usize) -> (r: String)
    ensures
        r@ == caption@ + " ["@ + zero_pad(decimal(count as nat), 2) + "]"@,
{
    let mut r = caption.to_owned();
    r.append(" [");
    push_zero_padded(&mut r, count as u64, 2);
    r.append("]");
    r
}

/// A count zero-padded to two digits.
pub fn two_digit_count(count: usize) -> (r: String)
    ensures
        r@ == zero_pad(decimal(count as nat), 2),
{
    let mut r = String::new();
    push_zero_padded(&mut r, count as u64, 2);
    r
}

/// The body size stat, in bytes.
pub fn body_size_label(bytes: usize) -> (r: String)
    ensures
        r@ == decimal(bytes as nat) + " B"@,
{
    let mut r = String::new();
    push_decimal(&mut r, bytes as u64);
    r.append(" B");
    r
}

/// The chunk count stat: the manifest's count, or 0 before the first ingest.
pub fn chunk_count_label(count: Option<u32>) -> (r: String)
    ensures
        r@ == (match count {
            Some(c) => decimal(c as nat),
            None => "0"@,
        }),
{
    match count {
        Some(c) => {
            let mut r = String::new();
            push_decimal(&mut r, c as u64);
            r
        },
        None => String::from_str("0"),
    }
}

/// The path line of a post, `./posts/<slug>`.
pub fn post_path_label(slug: &str) -> (r: String)
    ensures
        r@ == "./posts/"@ + slug@,
{
    let mut r = String::from_str("./posts/");
    r.append(slug);
    r
}

/// The embedding limit field, `<n> TOKENS`.
pub fn token_limit_label(limit: u32) -> (r: String)
    ensures
        r@ == decimal(limit as nat) + " TOKENS"@,
{
    let mut r = String::new();
    push_decimal(&mut r, limit as u64);
    r.append(" TOKENS");
    r
}

/// A metadata value that may be missing, with the text shown in its place.
pub fn value_or(value: Option<&str>, missing: &str) -> (r: String)
    ensures
        r@ == (match value {
            Some(v) => v@,
            None => missing@,
        }),
{
    match value {
        Some(v) => v.to_owned(),
        None => missing.to_owned(),
    }
}

// ---------------------------------------------------------------------------
// Evaluation history
// ---------------------------------------------------------------------------

/// Rows per page of the evaluation history.
pub const EVALUATION_HISTORY_PAGE_SIZE: usize = 10;

/// The number of history pages for `total` runs.
pub open spec fn page_count(total: nat) -> nat {
    (total + 9) / 10
}

pub fn total_pages(total_runs: usize) -> (r: usize)
    ensures
        r == page_count(total_runs as nat),
{
    total_runs / EVALUATION_HISTORY_PAGE_SIZE + if total_runs % EVALUATION_HISTORY_PAGE_SIZE != 0 {
        1
    } else {
        0
    }
}

/// Whether the previous-page button is disabled.
pub fn previous_disabled(page: usize) -> (r: bool)
    ensures
        r == (page == 0),
{
    page == 0
}

/// Whether the next-page button is disabled.
pub fn next_disabled(page: usize, pages: usize) -> (r: bool)
    ensures
        r == (page + 1 >= pages),
{
    page >= pages || pages - page <= 1
}

/// The page after pressing "previous": one back, never below the first.
pub open spec fn previous_page_spec(page: nat) -> nat {
    if page == 0 {
        0
    } else {
        (page - 1) as nat
    }
}

/// The page after pressing "next": one on, never past the last.
pub open spec fn next_page_spec(page: nat, pages: nat) -> nat {
    if page + 1 < pages {
        page + 1
    } else {
        page
    }
}

pub fn previous_page(page: usize) -> (r: usize)
    ensures
        r == previous_page_spec(page as nat),
{
    page.saturating_sub(1)
}

pub fn next_page(page: usize, pages: usize) -> (r: usize)
    ensures
        r == next_page_spec(page as nat, pages as nat),
{
    if page < pages && pages - page > 1 {
        page + 1
    } else {
        page
    }
}

/// Paging never leaves the range of pages: from a valid page, "previous" and
/// "next" lead to a valid page, and "previous" undoes "next" when "next"
/// moved.
pub proof fn law_paging_stays_in_range(page: nat, pages: nat)
    requires
        page < pages,
    ensures
        previous_page_spec(page) < pages,
        next_page_spec(page, pages) < pages,
        page + 1 < pages ==> previous_page_spec(next_page_spec(page, pages)) == page,
        next_page_spec(page, pages) == page <==> page + 1 >= pages,
{
}

/// The first row index of a page.
pub fn page_start(page: usize) -> (r: usize)
    requires
        page * 10 <= usize::MAX,
    ensures
        r == page * 10,
{
    page * EVALUATION_HISTORY_PAGE_SIZE
}

/// The row range line of a history page, `SHOWING a-b OF n`, for a page
/// that exists.
pub fn showing_label(page: usize, total_runs: usize) -> (r: String)
    requires
        page < page_count(total_runs as nat),
    ensures
        r@ == "SHOWING "@ + decimal((page * 10 + 1) as nat) + "-"@ + decimal(
            (if (page + 1) * 10 < total_runs {
                (page + 1) * 10
            } else {
                total_runs as int
            }) as nat,
        ) + " OF "@ + decimal(total_runs as nat),
{
    assert(page * 10 < total_runs) by (nonlinear_arith)
        requires
            page < (total_runs + 9) / 10,
    ;
    let start = page * 10;
    let end = if total_runs - start > 10 {
        start + 10
    } else {
        total_runs
    };
    let mut r = String::from_str("SHOWING ");
    push_decimal(&mut r, (start + 1) as u64);
    r.append("-");
    push_decimal(&mut r, end as u64);
    r.append(" OF ");
    push_decimal(&mut r, total_runs as u64);
    r
}

/// The page indicator, `PAGE p/n`, counting from one.
pub fn page_label(page: usize, pages: usize) -> (r: String)
    requires
        page < pages,
    ensures
        r@ == "PAGE "@ + decimal((page + 1) as nat) + "/"@ + decimal(pages as nat),
{
    let mut r = String::from_str("PAGE ");
    push_decimal(&mut r, (page + 1) as u64);
    r.append("/");
    push_decimal(&mut r, pages as u64);
    r
}

/// A saved evaluation run as the history lists it.
#[derive(Debug, Clone)]
pub struct EvaluationRunSummary {
    pub run_id: String,
    pub created_at: String,
    pub variant_count: usize,
    pub option_count: usize,
    pub variant_labels: Vec<String>,
    pub best_label: String,
    pub options: EvaluationRunOptions,
}

/// The variants column of a history row: the variant's own label for a
/// single-variant run, else a count with the best variant.
pub open spec fn history_variant_label_spec(run: EvaluationRunSummary) -> Seq<char> {
    if run.variant_count == 1 {
        if run.variant_labels@.len() > 0 {
            run.variant_labels@[0]@
        } else {
            run.best_label@
        }
    } else if run.option_count > 1 {
        decimal(run.option_count as nat) + " MATRIX RESULTS · BEST "@ + run.best_label@
    } else {
        decimal(run.variant_count as nat) + " VARIANTS · BEST "@ + run.best_label@
    }
}

pub fn history_variant_label(run: &EvaluationRunSummary) -> (r: String)
    ensures
        r@ == history_variant_label_spec(*run),
{
    if run.variant_count == 1 {
        if run.variant_labels.len() > 0 {
            run.variant_labels[0].clone()
        } else {
            run.best_label.clone()
        }
    } else if run.option_count > 1 {
        let mut r = String::new();
        push_decimal(&mut r, run.option_count as u64);
        r.append(" MATRIX RESULTS · BEST ");
        r.append(run.best_label.as_str());
        r
    } else {
        let mut r = String::new();
        push_decimal(&mut r, run.variant_count as u64);
        r.append(" VARIANTS · BEST ");
        r.append(run.best_label.as_str());
        r
    }
}

/// A parameter column of a history row: `MIXED` for a matrix run, else the
/// value.
pub fn history_param_label(option_count: usize, value: u32) -> (r: String)
    ensures
        r@ == (if option_count > 1 {
            "MIXED"@
        } else {
            decimal(value as nat)
        }),
{
    if option_count > 1 {
        String::from_str("MIXED")
    } else {
        let mut r = String::new();
        push_decimal(&mut r, value as u64);
        r
    }
}

/// The run column of a history row: its time, or its id when the time is
/// missing.
pub fn history_run_label(run: &EvaluationRunSummary) -> (r: String)
    ensures
        r@ == (if run.created_at@.len() == 0 {
            run.run_id@
        } else {
            run.created_at@
        }),
{
    if run.created_at.as_str().is_empty() {
        run.run_id.clone()
    } else {
        run.created_at.clone()
    }
}

} // verus!
