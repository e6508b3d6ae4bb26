use ws_session::handler::ArityClass;
use ws_session::handler::EventName;
use ws_session::handler::HandlerDescriptor;
use ws_session::handler::Registry;
use ws_session::outcome::InvocationOutcome;
use ws_session::outcome::OutcomeEffect;
use ws_session::outcome::failure_line;
use ws_session::outcome::render_sync_outcome;
use ws_session::session::InboundEvent;
use ws_session::session::LifecyclePhase;
use ws_session::session::Session;

fn active_session() -> Session {
    let d = HandlerDescriptor { arity: ArityClass::Zero, is_suspending: true, target: 0 };
    let mut s = Session::with_identity(9, Registry { connect: d, message: d, close: d });
    let _ = s.begin();
    s
}

#[test]
fn empty_message_outcome_is_acknowledged_with_ok() {
    let effect = render_sync_outcome(EventName::Message, InvocationOutcome::Empty);
    assert_eq!(effect, OutcomeEffect::WriteText("OK".to_string()));
}

#[test]
fn connect_and_close_outcomes_are_discarded() {
    let quiet = render_sync_outcome(
        EventName::Connect,
        InvocationOutcome::Text("hi".to_string()),
    );
    assert_eq!(quiet, OutcomeEffect::Quiet);
    let quiet = render_sync_outcome(EventName::Close, InvocationOutcome::Empty);
    assert_eq!(quiet, OutcomeEffect::Quiet);
}

#[test]
fn failure_is_logged_with_reason_and_never_written() {
    let effect = render_sync_outcome(
        EventName::Message,
        InvocationOutcome::Failed { reason: "boom".to_string(), trace: None },
    );
    match effect {
        OutcomeEffect::LogFailure(line) => assert_eq!(line, "boom"),
        other => panic!("expected a failure record, got {:?}", other),
    }
}

#[test]
fn failure_record_carries_the_trace_when_available() {
    let line = failure_line(
        &"boom".to_string(),
        &Some("frame a\nframe b".to_string()),
    );
    assert_eq!(line, "With PyTraceback: \nframe a\nframe b boom");
}

#[test]
fn session_stays_active_after_a_handler_failure() {
    let mut s = active_session();
    let _ = s.handle_frame(InboundEvent::Text("will fail".to_string()));
    let effect = render_sync_outcome(
        EventName::Message,
        InvocationOutcome::Failed { reason: "boom".to_string(), trace: None },
    );
    assert!(matches!(effect, OutcomeEffect::LogFailure(_)));
    assert_eq!(s.phase, LifecyclePhase::Active);
    let next = s.handle_frame(InboundEvent::Text("next".to_string()));
    assert_eq!(next.len(), 1);
}

#[test]
fn suspending_completion_is_written_as_one_text_frame() {
    let s = active_session();
    let effect = s.render_async_completion(InvocationOutcome::Text("done".to_string()));
    assert_eq!(effect, OutcomeEffect::WriteText("done".to_string()));
}

#[test]
fn suspending_completion_after_teardown_is_a_no_op() {
    let mut s = active_session();
    let _ = s.on_teardown();
    let effect = s.render_async_completion(InvocationOutcome::Text("late".to_string()));
    assert_eq!(effect, OutcomeEffect::Quiet);
}

#[test]
fn suspending_failure_is_logged_not_written() {
    let s = active_session();
    let effect = s.render_async_completion(InvocationOutcome::Failed {
        reason: "boom".to_string(),
        trace: Some("tb".to_string()),
    });
    assert_eq!(
        effect,
        OutcomeEffect::LogFailure("With PyTraceback: \ntb boom".to_string())
    );
}

#[test]
fn suspending_completion_without_value_is_logged() {
    let s = active_session();
    let effect = s.render_async_completion(InvocationOutcome::Empty);
    assert!(matches!(effect, OutcomeEffect::LogFailure(_)));
}
