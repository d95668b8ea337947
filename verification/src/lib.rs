//! A module graph: modules, the dependencies between them, and the
//! connections that resolving a dependency creates.
pub mod collections;
mod sealed;
pub mod ids;
pub mod module;
pub mod module_graph;
pub mod context_dependency;
pub mod laws;
