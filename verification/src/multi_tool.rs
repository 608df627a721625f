//! The multi-tool agent loop: the model drives itself by calling named tools.
//!
//! # History-rewriting tools
//!
//! Most tools only return a text, which is appended to the history as the result of the call.
//! *Rewriting* tools may also replace the whole history. When the handler of one runs, the history
//! already holds the assistant turn that requested the call and any earlier results of the same
//! batch. The handler chooses one of two legal outcomes:
//!
//! - It keeps the call. The messages that it returns end with the assistant turn that lists the
//!   call, or with results of the same batch that immediately follow that turn, and do not hold the
//!   result of the call behind it yet. The loop then appends that result.
//! - It consumes the call. No assistant turn lists the call any more, and there is no result for
//!   it. The loop then appends none.
//!
//! Returning the history unchanged is an identity rewrite: the result is appended and nothing is
//! replaced. Messages that are empty, that keep the call and end otherwise or hold its result behind the
//! last turn that lists it, or that consume it and hold a result for it are rejected: the history
//! stays as it was, and the error is relayed to the model.
//!
//! If any call of a batch names a rewriting tool, the batch runs serially.
//!
//! # Persistence
//!
//! A host that stores the system prompt, appends each pushed message and takes over each replacement
//! holds the history at every point of a run: see [`laws::law_invocation_mirrors_history`].

pub mod call_laws;
pub mod conversation_laws;
pub mod event;
pub mod history;
pub mod invocation;
pub mod laws;
pub mod message;
pub mod reply;
pub mod run_laws;
pub mod session;
pub mod tool;
pub mod view_laws;
