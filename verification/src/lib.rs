//! A harness that runs LLM-driven agent loops with tool calling and structured JSON request/response
//! schemas.
//!
//! The library decides and its host acts. The loops are state machines on plain values: each step
//! says what to do next (ask the model, run a tool, wait for the user), and the host reports what
//! came of it. So the history, the rules for tools that rewrite it, the limits and the compaction
//! are all verified, whatever the model, the tools and the user do.
//!
//! - [`multi_tool`]: the model drives itself by calling named tools.
//! - [`single_tool`]: each turn the model answers a typed request with a typed response.
//! - [`client`] and [`models`]: the requests to an OpenAI-compatible endpoint and what its answers
//!   hold.
//! - [`schema`]: the JSON schemas of tools, requests and responses.
//! - [`fences`]: JSON inside a reply of the model.
//!
//! What holds of these parts stands beside them, in the modules whose names end in `laws`.

pub mod client;
pub mod client_laws;
pub mod fences;
pub mod json;
pub mod models;
pub mod multi_tool;
pub mod schema;
pub mod schema_laws;
pub mod single_tool;
pub mod text;
pub mod text_laws;
pub mod usage;
pub mod window_laws;

pub use crate::client::{LLMConfig, OpenAIClient};
pub use crate::fences::extract_json;
pub use crate::multi_tool::event::UserRequest;
pub use crate::multi_tool::invocation::{AgentInvocation, AgentInvocationArgs};
pub use crate::multi_tool::reply::{assistant_text, assistant_tool_calls};
pub use crate::multi_tool::tool::Tool;
pub use crate::schema::generate_tool_schema;
pub use crate::single_tool::agent_loop::{
    run_loop, run_loop_with_max, LoopControl, RestoreState, SavePoint,
};
pub use crate::single_tool::config::{CompactPolicy, LoopConfig, LoopConfigBuilder};
pub use crate::usage::TokenUsage;
