//! Job log events and the live event stream that delivers them.
//!
//! The browser side opens a server-sent event stream for a background job and
//! hands each occurrence to [`stream_step`], which decides how the visible log
//! and the "running" flag change and whether the stream is to be closed.

use vstd::prelude::*;
use vstd::string::StringExecFns;
use crate::text::str_eq;

verus! {

/// Severity of a job log line.
#[derive(Debug, Clone, Copy, PartialEq, Eq, Structural)]
pub enum LogLevel {
    Info,
    Warn,
    Error,
    Success,
}

/// One line of a job log.
#[derive(Debug, Clone)]
pub struct LogEvent {
    pub level: LogLevel,
    pub message: String,
}

/// The four-letter prefix of a log line.
pub open spec fn log_prefix(level: LogLevel) -> Seq<char> {
    match level {
        LogLevel::Info => "INFO"@,
        LogLevel::Warn => "WARN"@,
        LogLevel::Error => "ERRO"@,
        LogLevel::Success => "DONE"@,
    }
}

/// The CSS class of a log line.
pub open spec fn log_class(level: LogLevel) -> Seq<char> {
    match level {
        LogLevel::Info => "log-line-info"@,
        LogLevel::Warn => "log-line-warn"@,
        LogLevel::Error => "log-line-error"@,
        LogLevel::Success => "log-line-success"@,
    }
}

/// The prefix and class with which the log panel renders a line.
pub fn log_line_style(level: LogLevel) -> (r: (&'static str, &'static str))
    ensures
        r.0@ == log_prefix(level),
        r.1@ == log_class(level),
{
    match level {
        LogLevel::Info => ("INFO", "log-line-info"),
        LogLevel::Warn => ("WARN", "log-line-warn"),
        LogLevel::Error => ("ERRO", "log-line-error"),
        LogLevel::Success => ("DONE", "log-line-success"),
    }
}

/// What the visible log of a job holds, and whether the job still runs.
pub struct StreamState {
    pub events: Vec<LogEvent>,
    pub running: bool,
}

/// One occurrence on a job's event stream, as the browser side sees it.
pub enum StreamMessage {
    /// The stream could not be opened; the text describes why.
    OpenFailed(String),
    /// The server announced the end of the job.
    Done,
    /// A log event arrived and was decoded.
    Event(LogEvent),
    /// A message arrived that is no log event; the text is the decoder's error.
    Malformed(String),
    /// The stream broke.
    Failed,
}

/// What the browser side does with the stream after a step.
#[derive(Debug, Clone, Copy, PartialEq, Eq, Structural)]
pub enum StreamAction {
    /// Keep listening.
    Continue,
    /// Close the stream.
    Close,
    /// Close the stream and run the caller's completion hook.
    CloseAndNotify,
}

/// The payload with which the server marks the end of a job.
pub fn is_done_marker(data: &str) -> (b: bool)
    ensures
        b == (data@ == "__done__"@),
{
    str_eq(data, "__done__")
}

/// The message of the error line that reports an unopenable stream.
pub open spec fn open_failure_message(error: Seq<char>) -> Seq<char> {
    "failed to open event stream: "@ + error
}

/// The message of the error line that reports an undecodable message.
pub open spec fn malformed_message(error: Seq<char>) -> Seq<char> {
    "malformed log event: "@ + error
}

/// The log line that a step appends, if any.
pub open spec fn appended_line(msg: StreamMessage) -> Option<(LogLevel, Seq<char>)> {
    match msg {
        StreamMessage::OpenFailed(e) => Some((LogLevel::Error, open_failure_message(e@))),
        StreamMessage::Event(ev) => Some((ev.level, ev.message@)),
        StreamMessage::Malformed(e) => Some((LogLevel::Error, malformed_message(e@))),
        _ => None,
    }
}

/// Whether a step ends the job's stream.
pub open spec fn ends_stream(msg: StreamMessage) -> bool {
    match msg {
        StreamMessage::OpenFailed(_) | StreamMessage::Done | StreamMessage::Failed => true,
        _ => false,
    }
}

/// The action a step asks for.
pub open spec fn step_action(msg: StreamMessage) -> StreamAction {
    match msg {
        StreamMessage::Done => StreamAction::CloseAndNotify,
        StreamMessage::Failed => StreamAction::Close,
        _ => StreamAction::Continue,
    }
}

fn error_line(prefix: &str, text: &str) -> (e: LogEvent)
    ensures
        e.level == LogLevel::Error,
        e.message@ == prefix@ + text@,
{
    let mut message = String::from_str(prefix);
    message.append(text);
    LogEvent { level: LogLevel::Error, message }
}

/// Applies one stream occurrence to the job's visible state.
///
/// A decoded event is appended as it is; an undecodable message and an
/// unopenable stream are appended as error lines. The end marker, a broken
/// stream and an unopenable stream stop the job; only the end marker asks for
/// the completion hook.
pub fn stream_step(state: &mut StreamState, msg: StreamMessage) -> (action: StreamAction)
    ensures
        action == step_action(msg),
        final(state).running == (old(state).running && !ends_stream(msg)),
        match appended_line(msg) {
            Some(line) => {
                &&& final(state).events@.len() == old(state).events@.len() + 1
                &&& final(state).events@.take(old(state).events@.len() as int)
                    == old(state).events@
                &&& final(state).events@.last().level == line.0
                &&& final(state).events@.last().message@ == line.1
            },
            None => final(state).events@ == old(state).events@,
        },
        msg matches StreamMessage::Event(ev) ==> final(state).events@ == old(state).events@.push(ev),
        msg matches StreamMessage::Malformed(e) ==> final(state).events@.last().level == LogLevel::Error,
        msg matches StreamMessage::OpenFailed(e) ==> final(state).events@.last().level == LogLevel::Error,
{
    match msg {
        StreamMessage::OpenFailed(e) => {
            let line = error_line("failed to open event stream: ", e.as_str());
            state.events.push(line);
            state.running = false;
            assert(state.events@.take(old(state).events@.len() as int) =~= old(state).events@);
            StreamAction::Continue
        },
        StreamMessage::Done => {
            state.running = false;
            StreamAction::CloseAndNotify
        },
        StreamMessage::Event(ev) => {
            state.events.push(ev);
            assert(state.events@.take(old(state).events@.len() as int) =~= old(state).events@);
            StreamAction::Continue
        },
        StreamMessage::Malformed(e) => {
            let line = error_line("malformed log event: ", e.as_str());
            state.events.push(line);
            assert(state.events@.take(old(state).events@.len() as int) =~= old(state).events@);
            StreamAction::Continue
        },
        StreamMessage::Failed => {
            state.running = false;
            StreamAction::Close
        },
    }
}

/// A decoded event reaches the log unchanged, whatever its level: the step
/// appends exactly its level and message and keeps the job running; the
/// lines that report a broken decoder or stream are error lines.
pub proof fn law_event_appended_unchanged(msg: StreamMessage)
    ensures
        msg matches StreamMessage::Event(ev) ==> appended_line(msg) == Some((ev.level, ev.message@))
            && !ends_stream(msg) && step_action(msg) == StreamAction::Continue,
        msg matches StreamMessage::Malformed(e) ==> appended_line(msg) matches Some(line) && line.0
            == LogLevel::Error,
        msg matches StreamMessage::OpenFailed(e) ==> appended_line(msg) matches Some(line) && line.0
            == LogLevel::Error,
        msg matches StreamMessage::Done ==> appended_line(msg) is None && ends_stream(msg),
{
}

/// Whether a job's log panel is shown: while the job runs, or once it has
/// lines.
pub fn log_visible(running: bool, event_count: usize) -> (b: bool)
    ensures
        b == (running || event_count > 0),
{
    running || event_count > 0
}

} // verus!
