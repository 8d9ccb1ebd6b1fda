//! A chat request and its outcome, as infinitum hands them to a serving
//! backend.
//!
//! An HTTP surface reads its wire format into a request; a chat backend
//! runs it, publishing admission and text deltas to its [`backend::ChatEvents`]
//! as they commit, and returns a [`outcome::ChatOutcome`] or a classified
//! [`backend::ChatFailure`]. Nothing here names a protocol or a backend.
pub mod runtime;
pub mod outcome;
pub mod request;
pub mod backend;
pub mod startup;
