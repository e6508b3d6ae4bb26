//! The argument builder: a pure, total function computing the
//! positional argument list for one handler call from the handler's
//! arity class, the connection identity and the optional message
//! payload.

use vstd::prelude::*;
use crate::handler::ArityClass;
use crate::handler::HandlerDescriptor;
use crate::identity::identity_string;
use crate::identity::identity_text;

verus! {

/// The text a handler receives for the message payload: the payload
/// itself, or the empty string when the event carries none.
pub open spec fn payload_text(payload: Option<String>) -> Seq<char> {
    match payload {
        Some(p) => p@,
        None => Seq::empty(),
    }
}

/// Builds the positional arguments for one handler call.
///
/// A zero-arity handler receives nothing (the payload is ignored); a
/// one-arity handler receives the connection identity in its canonical
/// text form; a handler of arity two or more receives the identity
/// followed by the payload, or the empty string when no payload came
/// with the event.
pub fn build_arguments(descriptor: &HandlerDescriptor, identity: u128, payload: Option<
    String,
>) -> (args: Vec<String>)
    ensures
        descriptor.arity == ArityClass::Zero ==> args@.len() == 0,
        descriptor.arity == ArityClass::One ==> args@.len() == 1 && args@[0]@ == identity_text(
            identity,
        ),
        descriptor.arity == ArityClass::TwoOrMore ==> args@.len() == 2 && args@[0]@
            == identity_text(identity) && args@[1]@ == payload_text(payload),
{
    match descriptor.arity {
        ArityClass::Zero => Vec::new(),
        ArityClass::One => vec![identity_string(identity)],
        ArityClass::TwoOrMore => {
            let text = match payload {
                Some(p) => p,
                None => String::new(),
            };
            vec![identity_string(identity), text]
        },
    }
}

} // verus!
