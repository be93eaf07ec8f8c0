use rag_admin::log::{
    is_done_marker, log_line_style, log_visible, stream_step, LogEvent, LogLevel, StreamAction,
    StreamMessage, StreamState,
};
use rag_admin::nav::{
    activity_dot_class, activity_title, apply_event_to_counter, counter_after_epoch, destinations,
    event_delta, nav_link_active, ConnectionState,
};
use rag_admin::tuning::{
    edit_field, number_input, parse_strategy, strategy_value, ChunkStrategy, ChunkingConfig,
    ChunkingField, TuningState,
};

fn config(target: u32) -> ChunkingConfig {
    ChunkingConfig {
        strategy: ChunkStrategy::Bert,
        target_chars: target,
        overlap_chars: 100,
        min_chars: 50,
        max_section_chars: 2000,
        llm_micro_chunk_chars: 300,
    }
}

fn state() -> StreamState {
    StreamState { events: Vec::new(), running: true }
}

#[test]
fn stream_appends_events_and_errors() {
    let mut s = state();
    let a = stream_step(&mut s, StreamMessage::Event(LogEvent { level: LogLevel::Info, message: "chunking".to_string() }));
    assert_eq!(a, StreamAction::Continue);
    let a = stream_step(&mut s, StreamMessage::Malformed("expected value".to_string()));
    assert_eq!(a, StreamAction::Continue);
    assert!(s.running);
    assert_eq!(s.events.len(), 2);
    assert_eq!(s.events[0].message, "chunking");
    assert_eq!(s.events[1].level, LogLevel::Error);
    assert_eq!(s.events[1].message, "malformed log event: expected value");
}

#[test]
fn stream_done_marker_notifies() {
    let mut s = state();
    assert!(is_done_marker("__done__"));
    assert!(!is_done_marker("__done__ "));
    assert_eq!(stream_step(&mut s, StreamMessage::Done), StreamAction::CloseAndNotify);
    assert!(!s.running);
    assert!(s.events.is_empty());
}

#[test]
fn stream_failure_closes_quietly() {
    let mut s = state();
    assert_eq!(stream_step(&mut s, StreamMessage::Failed), StreamAction::Close);
    assert!(!s.running);
    let mut s = state();
    assert_eq!(stream_step(&mut s, StreamMessage::OpenFailed("no route".to_string())), StreamAction::Continue);
    assert!(!s.running);
    assert_eq!(s.events[0].message, "failed to open event stream: no route");
}

#[test]
fn log_panel_style_and_visibility() {
    assert_eq!(log_line_style(LogLevel::Error), ("ERRO", "log-line-error"));
    assert_eq!(log_line_style(LogLevel::Success), ("DONE", "log-line-success"));
    assert!(log_visible(false, 1));
    assert!(!log_visible(false, 0));
}

#[test]
fn activity_counter_follows_events() {
    assert_eq!(event_delta("Indexing", "IngestRequested"), 1);
    assert_eq!(event_delta("EvaluationRun", "RunFailed"), -1);
    assert_eq!(event_delta("EvaluationDataset", "Completed"), -1);
    assert_eq!(event_delta("Indexing", "RunRequested"), 0);
    assert_eq!(apply_event_to_counter(0, "Indexing", "IndexingCompleted"), 0);
    assert_eq!(apply_event_to_counter(2, "EvaluationRun", "RunCompleted"), 1);
    assert_eq!(apply_event_to_counter(u32::MAX, "EvaluationRun", "RunRequested"), u32::MAX);
    assert_eq!(counter_after_epoch(Some(1), 2, 5), 0);
    assert_eq!(counter_after_epoch(Some(2), 2, 5), 5);
    assert_eq!(counter_after_epoch(None, 2, 5), 5);
}

#[test]
fn navigation() {
    let d = destinations();
    assert_eq!(d.len(), 5);
    assert_eq!(d[0], ("/", "Documents"));
    assert!(nav_link_active("/", "/documents/blogpost/x"));
    assert!(!nav_link_active("/", "/evaluations"));
    assert!(nav_link_active("/evaluations", "/evaluations/run/1"));
    assert!(!nav_link_active("/evaluations", "/evaluationsx"));
    assert_eq!(activity_dot_class(false, true), "activity-dot activity-dot-fail");
    assert_eq!(activity_dot_class(true, true), "activity-dot activity-dot-active");
    assert_eq!(activity_title(ConnectionState::Open, 0), "Connected · idle");
    assert_eq!(activity_title(ConnectionState::Open, 3), "Connected · 3 active job(s)");
    assert_eq!(activity_title(ConnectionState::Connecting, 3), "Connecting…");
}

#[test]
fn tuning_fields() {
    assert_eq!(strategy_value(ChunkStrategy::Section), "section");
    assert_eq!(parse_strategy("llm"), ChunkStrategy::Llm);
    assert_eq!(parse_strategy("?"), ChunkStrategy::Bert);
    assert_eq!(number_input("42", 7), 42);
    assert_eq!(number_input("", 7), 7);
    let c = config(800);
    assert_eq!(edit_field(c, ChunkingField::TargetChars, "x").target_chars, 0);
    assert_eq!(edit_field(c, ChunkingField::LlmMicroChunkChars, "50").llm_micro_chunk_chars, 100);
    assert_eq!(edit_field(c, ChunkingField::LlmMicroChunkChars, "x").llm_micro_chunk_chars, 300);
    assert_eq!(edit_field(c, ChunkingField::LlmMicroChunkChars, "450").llm_micro_chunk_chars, 450);
}

#[test]
fn tuning_panel_lifecycle() {
    let mut s = TuningState::new(config(800), None);
    assert!(!s.is_overridden());
    assert_eq!(s.status_label(), "USING DEFAULT");
    s.update_working(config(900));
    assert!(s.has_unsaved_changes());
    assert_eq!(s.status_label(), "UNSAVED_CHANGES");
    assert_eq!(s.status_class(), "tech-label !text-amber-400 py-2");
    s.save();
    assert_eq!(s.committed, Some(config(900)));
    assert_eq!(s.status_label(), "USING OVERRIDE");
    s.reset();
    assert_eq!(s.committed, None);
    assert_eq!(s.working, config(800));
    s.sync_committed(Some(config(700)));
    assert_eq!(s.working, config(700));
    assert!(!s.has_unsaved_changes());
}
