//! Invocation outcomes and their rendering.
//!
//! Every handler call is normalized into an outcome: a text value, no
//! value, or a failure with an optional diagnostic trace.  Rendering
//! turns an outcome into the session's visible effect — an outbound
//! text frame, a logged failure record, or nothing.  A failure is
//! always logged and never becomes an outbound frame, so a failing
//! handler cannot disturb the connection.

use vstd::prelude::*;
use crate::handler::EventName;

verus! {

/// What one handler invocation produced.
#[derive(Debug, PartialEq)]
pub enum InvocationOutcome {
    /// The handler returned a value representable as text.
    Text(String),
    /// The handler returned no value.
    Empty,
    /// The handler failed; `trace` carries a structured execution
    /// trace when one was available.
    Failed { reason: String, trace: Option<String> },
}

/// The session-visible effect of rendering one outcome.
#[derive(Debug, PartialEq)]
pub enum OutcomeEffect {
    /// Write this text back to the peer as an outbound text frame.
    WriteText(String),
    /// Record this failure line; write nothing to the peer.
    LogFailure(String),
    /// Neither a write nor a failure record.
    Quiet,
}

/// The default acknowledgement payload written when a message handler
/// succeeds without returning a value.
pub open spec fn ack_text() -> Seq<char> {
    "OK"@
}

/// The failure record for a failed invocation.  When a structured
/// execution trace was available it comes first, under its heading and
/// a newline, with the terminal error message after it; with no trace,
/// the record is the reason alone.  The layout, heading included, is
/// the record form already emitted for such failures (observed log
/// behavior, kept as such).
pub open spec fn failure_line_text(reason: Seq<char>, trace: Option<String>) -> Seq<char> {
    match trace {
        Some(t) => "With PyTraceback: \n"@ + t@ + " "@ + reason,
        None => reason,
    }
}

/// Formats the failure record for a failed invocation.
pub fn failure_line(reason: &String, trace: &Option<String>) -> (line: String)
    ensures
        line@ == failure_line_text(reason@, *trace),
{
    match trace {
        Some(t) => {
            let mut line = String::from_str("With PyTraceback: \n");
            line.append(t.as_str());
            line.append(" ");
            line.append(reason.as_str());
            proof {
                assert(line@ =~= "With PyTraceback: \n"@ + t@ + " "@ + reason@);
            }
            line
        },
        None => reason.clone(),
    }
}

/// The failure record always carries the failure reason — as its final
/// segment — and the execution trace, when one was available, right
/// after the heading.
pub proof fn lemma_failure_record_carries_reason(reason: Seq<char>, trace: Option<String>)
    ensures
        failure_line_text(reason, trace).len() >= reason.len(),
        failure_line_text(reason, trace).subrange(
            failure_line_text(reason, trace).len() - reason.len(),
            failure_line_text(reason, trace).len() as int,
        ) == reason,
        trace matches Some(t) ==> failure_line_text(reason, trace).subrange(
            "With PyTraceback: \n"@.len() as int,
            ("With PyTraceback: \n"@.len() + t@.len()) as int,
        ) == t@,
{
    let line = failure_line_text(reason, trace);
    match trace {
        Some(t) => {
            assert(line.subrange(line.len() - reason.len(), line.len() as int) =~= reason);
            assert(line.subrange(
                "With PyTraceback: \n"@.len() as int,
                ("With PyTraceback: \n"@.len() + t@.len()) as int,
            ) =~= t@);
        },
        None => {
            assert(line.subrange(line.len() - reason.len(), line.len() as int) =~= reason);
        },
    }
}

/// Renders the outcome of a synchronously invoked handler.
///
/// A failure becomes exactly one logged failure record and no outbound
/// frame, whatever the event.  For a `message` event a returned text
/// is written back as an outbound text frame and a missing value is
/// acknowledged with the fixed payload `"OK"`; the outcomes of
/// `connect` and `close` invocations are discarded, as those events
/// have no reply semantics.
pub fn render_sync_outcome(event: EventName, outcome: InvocationOutcome) -> (e: OutcomeEffect)
    ensures
        outcome matches InvocationOutcome::Failed { reason, trace } ==> e matches
            OutcomeEffect::LogFailure(line) && line@ == failure_line_text(reason@, trace),
        event == EventName::Message ==> (outcome matches InvocationOutcome::Text(t) ==> e matches
            OutcomeEffect::WriteText(w) && w@ == t@),
        event == EventName::Message && outcome is Empty ==> (e matches OutcomeEffect::WriteText(w)
            && w@ == ack_text()),
        event != EventName::Message && !(outcome is Failed) ==> e is Quiet,
{
    match outcome {
        InvocationOutcome::Failed { reason, trace } => OutcomeEffect::LogFailure(
            failure_line(&reason, &trace),
        ),
        InvocationOutcome::Text(t) => {
            if matches!(event, EventName::Message) {
                OutcomeEffect::WriteText(t)
            } else {
                OutcomeEffect::Quiet
            }
        },
        InvocationOutcome::Empty => {
            if matches!(event, EventName::Message) {
                OutcomeEffect::WriteText(String::from_str("OK"))
            } else {
                OutcomeEffect::Quiet
            }
        },
    }
}

} // verus!
