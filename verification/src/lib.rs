//! Message-passing core of an actor runtime.
//!
//! The crate provides the type-erased envelope ([`message::Msg`]) with its
//! three delivery modes (broadcast, tell, ask), the one-shot reply channel
//! behind an ask ([`message::Sender`] / [`message::Answer`]), the control
//! envelope that multiplexes runtime signals with user traffic
//! ([`message::BastionMessage`]), and the per-actor FIFO mailbox with the
//! context façade that serves it ([`context::BastionContext`]).

mod channel;
pub mod context;
mod erased;
mod lock;
pub mod message;
pub mod refs;
