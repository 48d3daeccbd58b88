//! NeuroCortex guard: the verified decision logic of an MCP server that screens
//! state-mutating agent actions (secret scrubbing, churn limiting, semantic
//! constraint injection and sandboxed dry runs).
pub mod guard;
pub mod models;
pub mod protocol;
pub mod sandbox;
pub mod semantic;
pub mod text;
