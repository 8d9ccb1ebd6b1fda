//! The speculative round as infinitum describes it: a graph of typed
//! fragments, the builder that keeps it well formed, the components that
//! emit it, and the host's per-round output decision.
pub mod fragment;
pub mod graph;
pub mod maybe;
pub mod token;
pub mod component;
pub mod plan;
pub mod preview;
