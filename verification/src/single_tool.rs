//! Typed request/response loops: each turn the agent answers a request with structured JSON, and the
//! controller turns the answer into the next request.
//!
//! When the prompt of a turn fills at least three quarters of the model's context window, the loop
//! asks for a summary of about a quarter of the window. The summary then stands in the prompts for
//! all but the latest turns. A summary that fails changes nothing, and none counts as a turn.

pub mod agent_loop;
pub mod compaction;
pub mod config;
pub mod laws;
pub mod prompt;
pub mod prompt_laws;
pub mod run_laws;
pub mod step_laws;
