//! Per-connection WebSocket session core.
//!
//! The library dispatches a connection's lifecycle events (open,
//! inbound frames, close) to registered handlers, builds the argument
//! list for each handler call, renders handler outcomes into outbound
//! frames or failure records, and tracks the session's lifecycle
//! phases.  The transport and the execution of the handlers themselves
//! live outside: the session core decides, the embedder performs.

pub mod handler;
pub mod args;
pub mod identity;
pub mod outcome;
pub mod session;

pub use handler::ArityClass;
pub use handler::EventName;
pub use handler::HandlerDescriptor;
pub use handler::Registry;
pub use handler::RegistryError;
pub use outcome::InvocationOutcome;
pub use outcome::OutcomeEffect;
pub use session::Action;
pub use session::InboundEvent;
pub use session::LifecyclePhase;
pub use session::Session;
