//! A cancel guard: a poll-driven state machine that races a guarded
//! operation against a cancellation signal, with an optional grace period
//! during which the operation may still finish after cancellation.


pub mod error;
pub mod guard;
pub mod laws;

pub use error::CancelledByShutdown;
pub use guard::{CancelGuard, Event, GuardView, Phase, Stage, Step};
