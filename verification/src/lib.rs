//! Core of a Wayland event-loop dispatcher: the state machines that turn
//! asynchronous, out-of-order display-server callbacks into an ordered stream
//! of application events.
//!
//! The wire transport (socket connect, read, write, flush) is an external
//! collaborator.  Every decision the dispatcher takes — capability
//! negotiation, monitor bookkeeping, pointer event shaping, post-dispatch
//! trigger ordering — is made here, on plain values, and verified.

pub mod context;
pub mod dispatch;
pub mod events;
pub mod monitor;
pub mod pointer;
pub mod seat;
pub mod sink;
pub mod window;
