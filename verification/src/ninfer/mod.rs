//! infinitum's ninfer backend: the options an Engine is opened with, the
//! planner that accepts exactly ninfer's fused DFlash2 round, the text that
//! crosses the Engine, and the host-side decisions of a generation and of a
//! chat session.
pub mod options;
pub mod plan;
pub mod text;
pub mod wire;
pub mod session;
pub mod chat;
