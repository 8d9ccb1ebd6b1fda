//! The infinitum engine's logic: the speculative round, its planning on
//! ninfer, the chat contract, the operational log's formats and the request
//! rules of the chat surface, each stated and proved.
pub mod changelog;
pub mod chat;
pub mod clock;
pub mod driver;
pub mod facade;
pub mod json;
pub mod letters;
pub mod ninfer;
pub mod numeral;
pub mod pretty;
pub mod report;
pub mod round;
pub mod serve;
