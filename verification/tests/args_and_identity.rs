use ws_session::handler::ArityClass;
use ws_session::handler::HandlerDescriptor;
use ws_session::handler::Registry;
use ws_session::args::build_arguments;
use ws_session::session::Session;

fn descriptor(arity: ArityClass) -> HandlerDescriptor {
    HandlerDescriptor { arity, is_suspending: false, target: 0 }
}

fn registry() -> Registry {
    Registry {
        connect: descriptor(ArityClass::Zero),
        message: descriptor(ArityClass::TwoOrMore),
        close: descriptor(ArityClass::Zero),
    }
}

#[test]
fn zero_arity_gets_no_arguments() {
    let args = build_arguments(
        &descriptor(ArityClass::Zero),
        7,
        Some("ignored".to_string()),
    );
    assert_eq!(args.len(), 0);
}

#[test]
fn one_arity_gets_identity_text() {
    let args = build_arguments(&descriptor(ArityClass::One), 0, None);
    assert_eq!(args, vec!["00000000-0000-0000-0000-000000000000".to_string()]);
}

#[test]
fn two_or_more_gets_identity_and_payload() {
    let args = build_arguments(
        &descriptor(ArityClass::TwoOrMore),
        0xa1a2a3a4b1b2c1c2d1d2d3d4d5d6d7d8u128,
        Some("hello".to_string()),
    );
    assert_eq!(
        args,
        vec![
            "a1a2a3a4-b1b2-c1c2-d1d2-d3d4d5d6d7d8".to_string(),
            "hello".to_string(),
        ]
    );
}

#[test]
fn two_or_more_without_payload_gets_empty_string() {
    let args = build_arguments(&descriptor(ArityClass::TwoOrMore), 0xdeadbeef, None);
    assert_eq!(
        args,
        vec![
            "00000000-0000-0000-0000-0000deadbeef".to_string(),
            "".to_string(),
        ]
    );
}

#[test]
fn identity_is_stable_within_a_session() {
    let mut s = Session::open(registry());
    let before = s.identity;
    let _ = s.begin();
    let first = build_arguments(&descriptor(ArityClass::One), s.identity, None);
    let _ = s.handle_frame(ws_session::session::InboundEvent::Text("x".to_string()));
    let second = build_arguments(&descriptor(ArityClass::One), s.identity, None);
    assert_eq!(s.identity, before);
    assert_eq!(first, second);
}

#[test]
fn distinct_sessions_get_distinct_identities() {
    let a = Session::open(registry());
    let b = Session::open(registry());
    assert_ne!(a.identity, b.identity);
}
