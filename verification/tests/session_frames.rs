use ws_session::handler::ArityClass;
use ws_session::handler::EventName;
use ws_session::handler::HandlerDescriptor;
use ws_session::handler::Registry;
use ws_session::outcome::InvocationOutcome;
use ws_session::outcome::OutcomeEffect;
use ws_session::outcome::render_sync_outcome;
use ws_session::session::Action;
use ws_session::session::InboundEvent;
use ws_session::session::LifecyclePhase;
use ws_session::session::Session;

fn registry() -> Registry {
    let d = HandlerDescriptor { arity: ArityClass::Zero, is_suspending: false, target: 0 };
    Registry { connect: d, message: d, close: d }
}

fn active_session() -> Session {
    let mut s = Session::with_identity(7, registry());
    let actions = s.begin();
    assert_eq!(actions, vec![Action::Invoke(EventName::Connect, None)]);
    s
}

#[test]
fn begin_invokes_connect_once_and_activates() {
    let mut s = Session::with_identity(7, registry());
    assert_eq!(s.phase, LifecyclePhase::Starting);
    let actions = s.begin();
    assert_eq!(actions, vec![Action::Invoke(EventName::Connect, None)]);
    assert_eq!(s.phase, LifecyclePhase::Active);
}

#[test]
fn text_frame_dispatches_to_message_handler() {
    let mut s = active_session();
    let actions = s.handle_frame(InboundEvent::Text("ping".to_string()));
    assert_eq!(
        actions,
        vec![Action::Invoke(EventName::Message, Some("ping".to_string()))]
    );
    assert_eq!(s.phase, LifecyclePhase::Active);
}

#[test]
fn message_reply_is_written_as_one_text_frame() {
    let mut s = active_session();
    let actions = s.handle_frame(InboundEvent::Text("ping".to_string()));
    assert_eq!(actions.len(), 1);
    let effect = render_sync_outcome(
        EventName::Message,
        InvocationOutcome::Text("pong".to_string()),
    );
    assert_eq!(effect, OutcomeEffect::WriteText("pong".to_string()));
}

#[test]
fn binary_frame_passes_through_unchanged() {
    let mut s = active_session();
    let payload = vec![0xde, 0xad, 0xbe, 0xef];
    let actions = s.handle_frame(InboundEvent::Binary(payload.clone()));
    assert_eq!(actions, vec![Action::WriteBinary(payload)]);
}

#[test]
fn ping_reinvokes_connect_and_answers_with_pong() {
    let mut s = active_session();
    let actions = s.handle_frame(InboundEvent::Ping(vec![1, 2]));
    assert_eq!(
        actions,
        vec![
            Action::Invoke(EventName::Connect, None),
            Action::WritePong(vec![1, 2]),
        ]
    );
}

#[test]
fn pong_is_answered_with_pong() {
    let mut s = active_session();
    let actions = s.handle_frame(InboundEvent::Pong(vec![3]));
    assert_eq!(actions, vec![Action::WritePong(vec![3])]);
}

#[test]
fn unrecognized_events_are_ignored() {
    let mut s = active_session();
    let actions = s.handle_frame(InboundEvent::Other);
    assert_eq!(actions, Vec::new());
    assert_eq!(s.phase, LifecyclePhase::Active);
}

#[test]
fn peer_close_invokes_close_and_stops_intake() {
    let mut s = active_session();
    let actions = s.handle_frame(InboundEvent::Close);
    assert_eq!(actions, vec![Action::Invoke(EventName::Close, None)]);
    assert_eq!(s.phase, LifecyclePhase::Stopping);
    let after = s.handle_frame(InboundEvent::Text("late".to_string()));
    assert_eq!(after, Vec::new());
}

#[test]
fn close_is_not_invoked_twice_after_peer_close_then_teardown() {
    let mut s = active_session();
    let on_close = s.handle_frame(InboundEvent::Close);
    assert_eq!(on_close, vec![Action::Invoke(EventName::Close, None)]);
    let on_teardown = s.on_teardown();
    assert_eq!(on_teardown, Vec::new());
    assert_eq!(s.phase, LifecyclePhase::Stopped);
}

#[test]
fn teardown_without_peer_close_invokes_close_once() {
    let mut s = active_session();
    let actions = s.on_teardown();
    assert_eq!(actions, vec![Action::Invoke(EventName::Close, None)]);
    assert_eq!(s.phase, LifecyclePhase::Stopped);
}
