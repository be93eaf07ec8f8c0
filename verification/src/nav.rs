//! The navigation bar: which destination is current, and the activity
//! indicator that counts in-flight background jobs from the event bus.

use vstd::prelude::*;
use vstd::string::StringExecFns;
use crate::text::{decimal, has_prefix, push_decimal, starts_with_str, str_eq};

verus! {

/// State of the connection to the server's event bus.
#[derive(Debug, Clone, Copy, PartialEq, Eq, Structural)]
pub enum ConnectionState {
    Connecting,
    Open,
    Closed,
}

/// How an observed event moves the in-flight job counter: `1` when a job
/// starts, `-1` when one ends, `0` otherwise.
pub open spec fn event_delta_spec(aggregate: Seq<char>, event: Seq<char>) -> int {
    if aggregate == "Indexing"@ {
        if event == "IngestRequested"@ {
            1
        } else if event == "IndexingCompleted"@ || event == "IngestionFailed"@ || event
            == "IndexingRemoved"@ {
            -1
        } else {
            0
        }
    } else if aggregate == "EvaluationRun"@ {
        if event == "RunRequested"@ {
            1
        } else if event == "RunCompleted"@ || event == "RunFailed"@ {
            -1
        } else {
            0
        }
    } else if aggregate == "EvaluationDataset"@ {
        if event == "DatasetRequested"@ {
            1
        } else if event == "Completed"@ || event == "Failed"@ {
            -1
        } else {
            0
        }
    } else {
        0
    }
}

/// The counter change for an event of the given aggregate and event types.
pub fn event_delta(aggregate: &str, event: &str) -> (d: i32)
    ensures
        d == event_delta_spec(aggregate@, event@),
{
    if str_eq(aggregate, "Indexing") {
        if str_eq(event, "IngestRequested") {
            1
        } else if str_eq(event, "IndexingCompleted") || str_eq(event, "IngestionFailed") || str_eq(
            event,
            "IndexingRemoved",
        ) {
            -1
        } else {
            0
        }
    } else if str_eq(aggregate, "EvaluationRun") {
        if str_eq(event, "RunRequested") {
            1
        } else if str_eq(event, "RunCompleted") || str_eq(event, "RunFailed") {
            -1
        } else {
            0
        }
    } else if str_eq(aggregate, "EvaluationDataset") {
        if str_eq(event, "DatasetRequested") {
            1
        } else if str_eq(event, "Completed") || str_eq(event, "Failed") {
            -1
        } else {
            0
        }
    } else {
        0
    }
}

/// The counter after applying `delta`, saturating at both ends of `u32`.
pub open spec fn counter_after(count: u32, delta: int) -> u32 {
    if delta > 0 {
        if count as int + delta > u32::MAX {
            u32::MAX
        } else {
            (count + delta) as u32
        }
    } else if delta < 0 {
        if count as int + delta < 0 {
            0
        } else {
            (count + delta) as u32
        }
    } else {
        count
    }
}

/// Updates the in-flight job counter for an observed event: a start
/// increments it, an end decrements it (never below zero), and anything else
/// leaves it alone.
pub fn apply_event_to_counter(count: u32, aggregate: &str, event: &str) -> (r: u32)
    ensures
        r == counter_after(count, event_delta_spec(aggregate@, event@)),
{
    let delta = event_delta(aggregate, event);
    if delta == 0 {
        return count;
    }
    if delta > 0 {
        count.saturating_add(delta as u32)
    } else {
        count.saturating_sub((-delta) as u32)
    }
}

/// A job that starts and then ends leaves the counter where it was, as long
/// as the counter was below its ceiling.
pub proof fn law_start_then_end_restores(
    count: u32,
    start_aggregate: Seq<char>,
    start_event: Seq<char>,
    end_aggregate: Seq<char>,
    end_event: Seq<char>,
)
    requires
        event_delta_spec(start_aggregate, start_event) == 1,
        event_delta_spec(end_aggregate, end_event) == -1,
        count < u32::MAX,
    ensures
        counter_after(
            counter_after(count, event_delta_spec(start_aggregate, start_event)),
            event_delta_spec(end_aggregate, end_event),
        ) == count,
{
}

/// Every job request raises the counter by one, and every job lifecycle the
/// event bus reports balances out: an ingest that
/// completes, fails or is removed, an evaluation run that completes or fails,
/// and a dataset generation that completes or fails each take back the one
/// its request added, so the counter returns to where it was.
pub proof fn law_job_lifecycles_restore_counter(count: u32)
    requires
        count < u32::MAX,
    ensures
        counter_after(count, event_delta_spec("Indexing"@, "IngestRequested"@)) == count + 1,
        counter_after(count, event_delta_spec("EvaluationRun"@, "RunRequested"@)) == count + 1,
        counter_after(count, event_delta_spec("EvaluationDataset"@, "DatasetRequested"@)) == count
            + 1,
        forall|end: Seq<char>|
            end == "IndexingCompleted"@ || end == "IngestionFailed"@ || end == "IndexingRemoved"@
                ==> #[trigger] counter_after(
                counter_after(count, event_delta_spec("Indexing"@, "IngestRequested"@)),
                event_delta_spec("Indexing"@, end),
            ) == count,
        forall|end: Seq<char>|
            end == "RunCompleted"@ || end == "RunFailed"@ ==> #[trigger] counter_after(
                counter_after(count, event_delta_spec("EvaluationRun"@, "RunRequested"@)),
                event_delta_spec("EvaluationRun"@, end),
            ) == count,
        forall|end: Seq<char>|
            end == "Completed"@ || end == "Failed"@ ==> #[trigger] counter_after(
                counter_after(count, event_delta_spec("EvaluationDataset"@, "DatasetRequested"@)),
                event_delta_spec("EvaluationDataset"@, end),
            ) == count,
{
    reveal_strlit("Indexing");
    reveal_strlit("EvaluationRun");
    reveal_strlit("EvaluationDataset");
    reveal_strlit("IngestRequested");
    reveal_strlit("IndexingCompleted");
    reveal_strlit("IngestionFailed");
    reveal_strlit("IndexingRemoved");
    reveal_strlit("RunRequested");
    reveal_strlit("RunCompleted");
    reveal_strlit("RunFailed");
    reveal_strlit("DatasetRequested");
    reveal_strlit("Completed");
    reveal_strlit("Failed");
    assert("Indexing"@.len() != "EvaluationRun"@.len());
    assert("Indexing"@.len() != "EvaluationDataset"@.len());
    assert("EvaluationRun"@.len() != "EvaluationDataset"@.len());
    assert("IngestRequested"@.len() != "IndexingCompleted"@.len());
    assert("IngestRequested"@[6] != "IngestionFailed"@[6]);
    assert("IngestRequested"@[2] != "IndexingRemoved"@[2]);
    assert("IngestRequested"@.len() != "RunRequested"@.len());
    assert("IngestRequested"@.len() != "RunCompleted"@.len());
    assert("IngestRequested"@.len() != "RunFailed"@.len());
    assert("IngestRequested"@.len() != "DatasetRequested"@.len());
    assert("IngestRequested"@.len() != "Completed"@.len());
    assert("IngestRequested"@.len() != "Failed"@.len());
    assert("IndexingCompleted"@.len() != "IngestionFailed"@.len());
    assert("IndexingCompleted"@.len() != "IndexingRemoved"@.len());
    assert("IndexingCompleted"@.len() != "RunRequested"@.len());
    assert("IndexingCompleted"@.len() != "RunCompleted"@.len());
    assert("IndexingCompleted"@.len() != "RunFailed"@.len());
    assert("IndexingCompleted"@.len() != "DatasetRequested"@.len());
    assert("IndexingCompleted"@.len() != "Completed"@.len());
    assert("IndexingCompleted"@.len() != "Failed"@.len());
    assert("IngestionFailed"@[2] != "IndexingRemoved"@[2]);
    assert("IngestionFailed"@.len() != "RunRequested"@.len());
    assert("IngestionFailed"@.len() != "RunCompleted"@.len());
    assert("IngestionFailed"@.len() != "RunFailed"@.len());
    assert("IngestionFailed"@.len() != "DatasetRequested"@.len());
    assert("IngestionFailed"@.len() != "Completed"@.len());
    assert("IngestionFailed"@.len() != "Failed"@.len());
    assert("IndexingRemoved"@.len() != "RunRequested"@.len());
    assert("IndexingRemoved"@.len() != "RunCompleted"@.len());
    assert("IndexingRemoved"@.len() != "RunFailed"@.len());
    assert("IndexingRemoved"@.len() != "DatasetRequested"@.len());
    assert("IndexingRemoved"@.len() != "Completed"@.len());
    assert("IndexingRemoved"@.len() != "Failed"@.len());
    assert("RunRequested"@[3] != "RunCompleted"@[3]);
    assert("RunRequested"@.len() != "RunFailed"@.len());
    assert("RunRequested"@.len() != "DatasetRequested"@.len());
    assert("RunRequested"@.len() != "Completed"@.len());
    assert("RunRequested"@.len() != "Failed"@.len());
    assert("RunCompleted"@.len() != "RunFailed"@.len());
    assert("RunCompleted"@.len() != "DatasetRequested"@.len());
    assert("RunCompleted"@.len() != "Completed"@.len());
    assert("RunCompleted"@.len() != "Failed"@.len());
    assert("RunFailed"@.len() != "DatasetRequested"@.len());
    assert("RunFailed"@[0] != "Completed"@[0]);
    assert("RunFailed"@.len() != "Failed"@.len());
    assert("DatasetRequested"@.len() != "Completed"@.len());
    assert("DatasetRequested"@.len() != "Failed"@.len());
    assert("Completed"@.len() != "Failed"@.len());
}

/// The counter never wraps: an end on an idle counter keeps it at zero, and
/// every change moves it by at most one.
pub proof fn law_counter_bounded(count: u32, aggregate: Seq<char>, event: Seq<char>)
    ensures
        count == 0 && event_delta_spec(aggregate, event) <= 0 ==> counter_after(
            count,
            event_delta_spec(aggregate, event),
        ) == 0,
        -1 <= counter_after(count, event_delta_spec(aggregate, event)) - count <= 1,
{
}

/// The counter after the event bus reports connection epoch `epoch`, when
/// the previous run of the check saw `prev`: after a reconnect (a changed
/// epoch) the cached count is no longer trusted and resets to zero.
pub fn counter_after_epoch(prev: Option<u32>, epoch: u32, count: u32) -> (r: u32)
    ensures
        r == (match prev {
            Some(p) => if p != epoch {
                0
            } else {
                count
            },
            None => count,
        }),
{
    match prev {
        Some(p) => if p != epoch {
            0
        } else {
            count
        },
        None => count,
    }
}

/// The destinations of the navigation bar, as (path, label).
pub fn destinations() -> (r: Vec<(&'static str, &'static str)>)
    ensures
        r@.len() == 5,
        r@[0].0@ == "/"@ && r@[0].1@ == "Documents"@,
        r@[1].0@ == "/evaluations"@ && r@[1].1@ == "Evaluations"@,
        r@[2].0@ == "/pipelines"@ && r@[2].1@ == "Pipelines"@,
        r@[3].0@ == "/chunking"@ && r@[3].1@ == "Chunking"@,
        r@[4].0@ == "/playground"@ && r@[4].1@ == "Playground"@,
{
    let mut r = Vec::new();
    r.push(("/", "Documents"));
    r.push(("/evaluations", "Evaluations"));
    r.push(("/pipelines", "Pipelines"));
    r.push(("/chunking", "Chunking"));
    r.push(("/playground", "Playground"));
    r
}

/// Whether the link to `href` is the current page at `path`: the home link
/// also covers every document page; any other link covers its own path and
/// everything below it.
pub open spec fn nav_active_spec(href: Seq<char>, path: Seq<char>) -> bool {
    if href == "/"@ {
        path == "/"@ || has_prefix(path, "/documents"@)
    } else {
        path == href || has_prefix(path, href + "/"@)
    }
}

pub fn nav_link_active(href: &str, path: &str) -> (b: bool)
    ensures
        b == nav_active_spec(href@, path@),
{
    if str_eq(href, "/") {
        str_eq(path, "/") || starts_with_str(path, "/documents")
    } else {
        if str_eq(path, href) {
            return true;
        }
        let mut below = String::from_str(href);
        below.append("/");
        starts_with_str(path, below.as_str())
    }
}

/// The class of the activity dot: failed while disconnected, lit while jobs
/// run.
pub fn activity_dot_class(connected: bool, active: bool) -> (r: &'static str)
    ensures
        r@ == (if !connected {
            "activity-dot activity-dot-fail"@
        } else if !active {
            "activity-dot"@
        } else {
            "activity-dot activity-dot-active"@
        }),
{
    if !connected {
        "activity-dot activity-dot-fail"
    } else if !active {
        "activity-dot"
    } else {
        "activity-dot activity-dot-active"
    }
}

/// The tooltip of the activity indicator.
pub fn activity_title(connection: ConnectionState, active_jobs: u32) -> (r: String)
    ensures
        r@ == (match connection {
            ConnectionState::Open => if active_jobs == 0 {
                "Connected · idle"@
            } else {
                "Connected · "@ + decimal(active_jobs as nat) + " active job(s)"@
            },
            ConnectionState::Connecting => "Connecting…"@,
            ConnectionState::Closed => "Disconnected"@,
        }),
{
    match connection {
        ConnectionState::Open => {
            if active_jobs == 0 {
                String::from_str("Connected · idle")
            } else {
                let mut r = String::from_str("Connected · ");
                push_decimal(&mut r, active_jobs as u64);
                r.append(" active job(s)");
                r
            }
        },
        ConnectionState::Connecting => String::from_str("Connecting…"),
        ConnectionState::Closed => String::from_str("Disconnected"),
    }
}

} // verus!
