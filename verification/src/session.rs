//! The session actor: one connection's lifecycle state and the rules
//! by which inbound protocol events become handler invocations and
//! outbound frames.
//!
//! The session itself performs no transport work and runs no handler.
//! Each step consumes one event and returns the ordered actions the
//! embedder must perform; the embedder then feeds each invocation's
//! outcome back for rendering.  Because every step is a plain call on
//! `&mut self`, the session processes events strictly one at a time,
//! in arrival order.

use vstd::prelude::*;
use crate::handler::EventName;
use crate::handler::Registry;
use crate::identity::fresh_identity;
use crate::outcome::InvocationOutcome;
use crate::outcome::OutcomeEffect;
use crate::outcome::failure_line_text;
use crate::outcome::failure_line;

verus! {

/// The linear lifecycle of a session: no cycles, no re-entry.
#[derive(Clone, Copy, PartialEq, Eq, Structural, Debug)]
pub enum LifecyclePhase {
    Starting,
    Active,
    Stopping,
    Stopped,
}

/// One inbound protocol event, as the transport frames it.
#[derive(Debug, PartialEq)]
pub enum InboundEvent {
    Ping(Vec<u8>),
    Pong(Vec<u8>),
    Text(String),
    Binary(Vec<u8>),
    Close,
    Other,
}

/// One action the session asks its embedder to perform, in order.
#[derive(Debug, PartialEq)]
pub enum Action {
    /// Invoke the handler registered under this event name with this
    /// optional message payload.
    Invoke(EventName, Option<String>),
    /// Write a pong frame carrying this payload.
    WritePong(Vec<u8>),
    /// Write back a binary frame carrying this payload, unchanged.
    WriteBinary(Vec<u8>),
}

/// One step of a session's life, as the trace lemmas see it.
#[derive(Debug, PartialEq)]
pub enum SessionEvent {
    /// The socket upgrade completed; the session comes alive.
    Open,
    /// An inbound protocol event arrived.
    Frame(InboundEvent),
    /// The transport tore down (peer disconnect or local shutdown).
    Teardown,
}

/// The state a session owns for one connection.
pub struct Session {
    /// Process-unique identity, immutable for the session's lifetime.
    pub identity: u128,
    /// The handler registry, never mutated after construction.
    pub registry: Registry,
    pub phase: LifecyclePhase,
    /// Whether a `close` invocation has already been emitted.
    pub close_invoked: bool,
}

/// Whether an action invokes the `close` handler.
pub open spec fn is_close_invocation(a: Action) -> bool {
    a matches Action::Invoke(EventName::Close, _)
}

/// How many of these actions invoke the `close` handler.
pub open spec fn close_invocation_count(actions: Seq<Action>) -> nat
    decreases actions.len(),
{
    if actions.len() == 0 {
        0
    } else {
        (if is_close_invocation(actions[0]) {
            1nat
        } else {
            0nat
        }) + close_invocation_count(actions.drop_first())
    }
}

impl Session {
    /// The state after consuming one event.
    pub open spec fn step_state(self, ev: SessionEvent) -> Session {
        match ev {
            SessionEvent::Open => {
                if self.phase == LifecyclePhase::Starting {
                    Session { phase: LifecyclePhase::Active, ..self }
                } else {
                    self
                }
            },
            SessionEvent::Frame(frame) => {
                if self.phase == LifecyclePhase::Active && frame is Close {
                    Session { phase: LifecyclePhase::Stopping, close_invoked: true, ..self }
                } else {
                    self
                }
            },
            SessionEvent::Teardown => Session {
                phase: LifecyclePhase::Stopped,
                close_invoked: true,
                ..self
            },
        }
    }

    /// The actions emitted while consuming one event.
    pub open spec fn step_actions(self, ev: SessionEvent) -> Seq<Action> {
        match ev {
            SessionEvent::Open => {
                if self.phase == LifecyclePhase::Starting {
                    seq![Action::Invoke(EventName::Connect, None)]
                } else {
                    Seq::empty()
                }
            },
            SessionEvent::Frame(frame) => {
                if self.phase == LifecyclePhase::Active {
                    match frame {
                        InboundEvent::Ping(p) => seq![
                            Action::Invoke(EventName::Connect, None),
                            Action::WritePong(p),
                        ],
                        InboundEvent::Pong(p) => seq![Action::WritePong(p)],
                        InboundEvent::Text(t) => seq![
                            Action::Invoke(EventName::Message, Some(t)),
                        ],
                        InboundEvent::Binary(b) => seq![Action::WriteBinary(b)],
                        InboundEvent::Close => {
                            if self.close_invoked {
                                Seq::empty()
                            } else {
                                seq![Action::Invoke(EventName::Close, None)]
                            }
                        },
                        InboundEvent::Other => Seq::empty(),
                    }
                } else {
                    Seq::empty()
                }
            },
            SessionEvent::Teardown => {
                if self.close_invoked {
                    Seq::empty()
                } else {
                    seq![Action::Invoke(EventName::Close, None)]
                }
            },
        }
    }

    /// Whether transport teardown has begun, after which outbound
    /// writes are suppressed.
    pub open spec fn torn_down(self) -> bool {
        self.phase == LifecyclePhase::Stopping || self.phase == LifecyclePhase::Stopped
    }

    /// Creates the session for a freshly upgraded connection, drawing
    /// a fresh identity.
    pub fn open(registry: Registry) -> (s: Session)
        ensures
            s.registry == registry,
            s.phase == LifecyclePhase::Starting,
            !s.close_invoked,
    {
        Session {
            identity: fresh_identity(),
            registry,
            phase: LifecyclePhase::Starting,
            close_invoked: false,
        }
    }

    /// Creates a session with a caller-chosen identity.
    pub fn with_identity(identity: u128, registry: Registry) -> (s: Session)
        ensures
            s == (Session {
                identity,
                registry,
                phase: LifecyclePhase::Starting,
                close_invoked: false,
            }),
    {
        Session { identity, registry, phase: LifecyclePhase::Starting, close_invoked: false }
    }

    /// Brings a starting session alive: the session becomes active and
    /// the `connect` handler is invoked once, with no payload.
    pub fn begin(&mut self) -> (actions: Vec<Action>)
        ensures
            *final(self) == old(self).step_state(SessionEvent::Open),
            actions@ == old(self).step_actions(SessionEvent::Open),
    {
        if matches!(self.phase, LifecyclePhase::Starting) {
            self.phase = LifecyclePhase::Active;
            let actions = vec![Action::Invoke(EventName::Connect, None)];
            proof {
                assert(actions@ =~= old(self).step_actions(SessionEvent::Open));
            }
            actions
        } else {
            let actions = Vec::new();
            proof {
                assert(actions@ =~= old(self).step_actions(SessionEvent::Open));
            }
            actions
        }
    }

    /// Consumes one inbound protocol event, in arrival order.
    ///
    /// While active: a ping re-invokes the `connect` handler (observed
    /// protocol behavior, kept as such) and is answered with a pong; a
    /// pong is answered with a pong; a text frame invokes the `message`
    /// handler with the text as payload; a binary frame passes through
    /// unchanged with no handler invocation; a peer close frame invokes
    /// the `close` handler — unless it was already invoked — and moves
    /// the session toward stopping; anything else is ignored.  Outside
    /// the active phase every event is ignored.
    pub fn handle_frame(&mut self, frame: InboundEvent) -> (actions: Vec<Action>)
        ensures
            *final(self) == old(self).step_state(SessionEvent::Frame(frame)),
            actions@ == old(self).step_actions(SessionEvent::Frame(frame)),
    {
        if !matches!(self.phase, LifecyclePhase::Active) {
            let actions = Vec::<Action>::new();
            proof {
                assert(actions@ =~= old(self).step_actions(SessionEvent::Frame(frame)));
            }
            return actions;
        }
        match frame {
            InboundEvent::Ping(p) => {
                let actions = vec![
                    Action::Invoke(EventName::Connect, None),
                    Action::WritePong(p),
                ];
                proof {
                    assert(actions@ =~= old(self).step_actions(SessionEvent::Frame(frame)));
                }
                actions
            },
            InboundEvent::Pong(p) => {
                let actions = vec![Action::WritePong(p)];
                proof {
                    assert(actions@ =~= old(self).step_actions(SessionEvent::Frame(frame)));
                }
                actions
            },
            InboundEvent::Text(t) => {
                let actions = vec![Action::Invoke(EventName::Message, Some(t))];
                proof {
                    assert(actions@ =~= old(self).step_actions(SessionEvent::Frame(frame)));
                }
                actions
            },
            InboundEvent::Binary(b) => {
                let actions = vec![Action::WriteBinary(b)];
                proof {
                    assert(actions@ =~= old(self).step_actions(SessionEvent::Frame(frame)));
                }
                actions
            },
            InboundEvent::Close => {
                let already = self.close_invoked;
                self.phase = LifecyclePhase::Stopping;
                self.close_invoked = true;
                let actions = if already {
                    Vec::new()
                } else {
                    vec![Action::Invoke(EventName::Close, None)]
                };
                proof {
                    assert(actions@ =~= old(self).step_actions(SessionEvent::Frame(frame)));
                }
                actions
            },
            InboundEvent::Other => {
                let actions = Vec::<Action>::new();
                proof {
                    assert(actions@ =~= old(self).step_actions(SessionEvent::Frame(frame)));
                }
                actions
            },
        }
    }

    /// Consumes transport-level teardown.  The `close` handler is
    /// invoked exactly once per session: here only if no peer close
    /// frame already invoked it.
    pub fn on_teardown(&mut self) -> (actions: Vec<Action>)
        ensures
            *final(self) == old(self).step_state(SessionEvent::Teardown),
            actions@ == old(self).step_actions(SessionEvent::Teardown),
    {
        let already = self.close_invoked;
        self.phase = LifecyclePhase::Stopped;
        self.close_invoked = true;
        let actions = if already {
            Vec::new()
        } else {
            vec![Action::Invoke(EventName::Close, None)]
        };
        proof {
            assert(actions@ =~= old(self).step_actions(SessionEvent::Teardown));
        }
        actions
    }

    /// Renders the completion of a suspending handler, marshalled back
    /// onto the session's own control flow.
    ///
    /// A produced text value becomes one outbound text frame — unless
    /// the transport has torn down meanwhile, in which case the write
    /// is suppressed as a no-op.  A failure becomes one logged failure
    /// record, never an outbound frame.  A completion with no value
    /// cannot be extracted as text and is logged as a failure as well.
    pub fn render_async_completion(&self, completion: InvocationOutcome) -> (e: OutcomeEffect)
        ensures
            completion matches InvocationOutcome::Failed { reason, trace } ==> (e matches
                OutcomeEffect::LogFailure(line) && line@ == failure_line_text(reason@, trace)),
            !self.torn_down() ==> (completion matches InvocationOutcome::Text(t) ==> (e matches
                OutcomeEffect::WriteText(w) && w@ == t@)),
            completion is Text && self.torn_down() ==> e is Quiet,
            completion is Empty ==> (e matches OutcomeEffect::LogFailure(line) && line@
                == async_empty_reason()),
    {
        match completion {
            InvocationOutcome::Failed { reason, trace } => OutcomeEffect::LogFailure(
                failure_line(&reason, &trace),
            ),
            InvocationOutcome::Text(t) => {
                if matches!(self.phase, LifecyclePhase::Stopping | LifecyclePhase::Stopped) {
                    OutcomeEffect::Quiet
                } else {
                    OutcomeEffect::WriteText(t)
                }
            },
            InvocationOutcome::Empty => {
                let line = String::from_str("suspending handler completed with no value");
                proof {
                    reveal_strlit("suspending handler completed with no value");
                }
                OutcomeEffect::LogFailure(line)
            },
        }
    }
}

/// The failure reason recorded when a suspending handler completes
/// without a value that could be extracted as text.
pub open spec fn async_empty_reason() -> Seq<char> {
    "suspending handler completed with no value"@
}

/// The session state after consuming a sequence of events.
pub open spec fn run_state(s: Session, evs: Seq<SessionEvent>) -> Session
    decreases evs.len(),
{
    if evs.len() == 0 {
        s
    } else {
        run_state(s.step_state(evs[0]), evs.drop_first())
    }
}

/// All actions emitted while consuming a sequence of events, in order.
pub open spec fn run_actions(s: Session, evs: Seq<SessionEvent>) -> Seq<Action>
    decreases evs.len(),
{
    if evs.len() == 0 {
        Seq::empty()
    } else {
        s.step_actions(evs[0]) + run_actions(s.step_state(evs[0]), evs.drop_first())
    }
}

proof fn lemma_close_count_concat(x: Seq<Action>, y: Seq<Action>)
    ensures
        close_invocation_count(x + y) == close_invocation_count(x) + close_invocation_count(y),
    decreases x.len(),
{
    if x.len() == 0 {
        assert(x + y =~= y);
    } else {
        assert((x + y).drop_first() =~= x.drop_first() + y);
        assert((x + y)[0] == x[0]);
        lemma_close_count_concat(x.drop_first(), y);
    }
}

proof fn lemma_close_count_small(actions: Seq<Action>)
    requires
        actions.len() <= 2,
    ensures
        close_invocation_count(actions) <= actions.len(),
        actions.len() >= 1 && !is_close_invocation(actions[0]) && (actions.len() == 2
            ==> !is_close_invocation(actions[1])) ==> close_invocation_count(actions) == 0,
        actions.len() == 1 && is_close_invocation(actions[0]) ==> close_invocation_count(actions)
            == 1,
    decreases actions.len(),
{
    if actions.len() >= 1 {
        lemma_close_count_small(actions.drop_first());
    }
}

proof fn lemma_step_close_count(s: Session, ev: SessionEvent)
    ensures
        close_invocation_count(s.step_actions(ev)) <= if s.close_invoked {
            0int
        } else {
            1int
        },
        close_invocation_count(s.step_actions(ev)) > 0 ==> s.step_state(ev).close_invoked,
        s.close_invoked ==> s.step_state(ev).close_invoked,
{
    lemma_close_count_small(s.step_actions(ev));
}

proof fn lemma_close_count_bounded(s: Session, evs: Seq<SessionEvent>)
    ensures
        close_invocation_count(run_actions(s, evs)) <= if s.close_invoked {
            0int
        } else {
            1int
        },
    decreases evs.len(),
{
    if evs.len() > 0 {
        let stepped = s.step_state(evs[0]);
        lemma_step_close_count(s, evs[0]);
        lemma_close_count_bounded(stepped, evs.drop_first());
        lemma_close_count_concat(s.step_actions(evs[0]), run_actions(stepped, evs.drop_first()));
    }
}

/// The `close` handler is invoked at most once per session lifecycle:
/// over any sequence of events — peer close frames, transport
/// teardown, or both, in any order — a session that has not yet
/// invoked `close` emits at most one `close` invocation.
pub proof fn lemma_close_invoked_at_most_once(s: Session, evs: Seq<SessionEvent>)
    requires
        !s.close_invoked,
    ensures
        close_invocation_count(run_actions(s, evs)) <= 1,
{
    lemma_close_count_bounded(s, evs);
}

/// The connection identity is invariant for the life of the session:
/// no sequence of events changes it, so every handler invocation
/// within one session sees the same identity.
pub proof fn lemma_identity_stable(s: Session, evs: Seq<SessionEvent>)
    ensures
        run_state(s, evs).identity == s.identity,
    decreases evs.len(),
{
    if evs.len() > 0 {
        lemma_identity_stable(s.step_state(evs[0]), evs.drop_first());
    }
}

} // verus!
