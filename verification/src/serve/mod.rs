//! The OpenAI-compatible chat surface's decisions: the error shape, the
//! API-key check, the operational log's records and formats, the response
//! bodies, and the reading of a request body as a chat request, each
//! following ninfer's server field for field, so a client moves between the
//! two servers unchanged.
pub mod error;
pub mod server;
pub mod parse;
pub mod value;
pub mod oplog;
pub mod render;
