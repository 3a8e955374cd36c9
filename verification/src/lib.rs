//! A compiler for graph-shaped workflow definitions.
//!
//! A workflow arrives as a graph of typed nodes and edges together with
//! declared variables and settings.  The library validates the graph
//! (structure, reachability, cycles, per-node configuration, variable usage)
//! and lowers a valid graph into five TypeScript source artifacts for a
//! workflow-orchestration runtime.

pub mod api;
pub mod codegen;
pub mod components;
pub mod errors;
pub mod fragments;
pub mod graph;
pub mod json;
pub mod laws;
pub mod schema;
pub mod text;
pub mod validation;
pub mod verification;
pub mod wire;

pub use json::JsonValue;
pub use schema::WorkflowDefinition;
