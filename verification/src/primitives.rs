//! Presentation vocabulary shared by every page: status buckets, metric
//! emphasis and the class lists of the basic building blocks.

use vstd::prelude::*;
use vstd::string::StringExecFns;

verus! {

/// Semantic status states used across the app. Pages map their domain status
/// strings onto these buckets.
#[derive(Debug, Clone, Copy, PartialEq, Eq, Structural)]
pub enum Status {
    /// Successful terminal state (Indexed, Completed, Ready).
    Success,
    /// Active progress (Pending, Chunking, Embedding, Generating).
    Pending,
    /// Terminal failure.
    Fail,
    /// Source has moved on past the deployed indexing.
    Stale,
    /// Informational: neutral colour with a leading dot.
    Info,
    /// Default neutral: no leading dot, faded text.
    Neutral,
}

/// The CSS classes of a status pill.
pub open spec fn status_class(s: Status) -> Seq<char> {
    match s {
        Status::Success => "pill pill-ok"@,
        Status::Pending => "pill pill-pending"@,
        Status::Fail => "pill pill-fail"@,
        Status::Stale => "pill pill-stale"@,
        Status::Info => "pill pill-info"@,
        Status::Neutral => "pill pill-neutral"@,
    }
}

impl Status {
    /// The CSS classes of a pill in this state.
    pub fn class(self) -> (r: &'static str)
        ensures
            r@ == status_class(self),
    {
        match self {
            Status::Success => "pill pill-ok",
            Status::Pending => "pill pill-pending",
            Status::Fail => "pill pill-fail",
            Status::Stale => "pill pill-stale",
            Status::Info => "pill pill-info",
            Status::Neutral => "pill pill-neutral",
        }
    }
}

/// The bucket a status pill shows when the caller names none.
pub fn pill_kind(kind: Option<Status>) -> (r: Status)
    ensures
        r == (match kind {
            Some(k) => k,
            None => Status::Neutral,
        }),
{
    match kind {
        Some(k) => k,
        None => Status::Neutral,
    }
}

/// Emphasis of a metric bar.
#[derive(Debug, Clone, Copy, PartialEq, Eq, Structural)]
pub enum MetricKind {
    Default,
    /// Highlight as the headline / selected variant.
    Best,
}

/// The bar colour of a metric bar.
pub fn metric_bar_colour(kind: Option<MetricKind>) -> (r: &'static str)
    ensures
        r@ == (match kind {
            Some(MetricKind::Best) => "var(--color-accent)"@,
            _ => "var(--status-info)"@,
        }),
{
    match kind {
        Some(MetricKind::Best) => "var(--color-accent)",
        _ => "var(--status-info)",
    }
}

/// The class list of a `Surface`: its base colour, its padding and the
/// caller's extra classes, separated by single spaces.
pub fn surface_class(raised: bool, flush: bool, class: Option<&str>) -> (r: String)
    ensures
        r@ == (if raised {
            "surface-raised"@
        } else {
            "surface"@
        }) + " "@ + (if flush {
            ""@
        } else {
            "p-4"@
        }) + " "@ + (match class {
            Some(c) => c@,
            None => Seq::<char>::empty(),
        }),
{
    let mut r = String::from_str(
        if raised {
            "surface-raised"
        } else {
            "surface"
        },
    );
    r.append(" ");
    r.append(
        if flush {
            ""
        } else {
            "p-4"
        },
    );
    r.append(" ");
    match class {
        Some(c) => r.append(c),
        None => {},
    }
    r
}

/// Whether a `Surface` shows its heading row: it does when it has a title or
/// actions.
pub fn surface_has_header(has_title: bool, has_actions: bool) -> (r: bool)
    ensures
        r == (has_title || has_actions),
{
    has_title || has_actions
}

/// What a key/value row shows on its value side.
#[derive(Debug, Clone, Copy, PartialEq, Eq, Structural)]
pub enum KvContent {
    Value,
    Children,
    Placeholder,
}

/// The value wins over child content; with neither, a dash placeholder.
pub fn kv_content(has_value: bool, has_children: bool) -> (r: KvContent)
    ensures
        r == (if has_value {
            KvContent::Value
        } else if has_children {
            KvContent::Children
        } else {
            KvContent::Placeholder
        }),
{
    if has_value {
        KvContent::Value
    } else if has_children {
        KvContent::Children
    } else {
        KvContent::Placeholder
    }
}

} // verus!
