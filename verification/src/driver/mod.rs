//! The driver's decisions: the generation request's arguments, its planning
//! check and its rendering, and the server's flags.
pub mod generate;
pub mod serve;
