//! Discovery, aggregation, change detection and heuristic auditing of the
//! services and listening ports of one host.
//!
//! Every function here works on plain values: the text a system tool printed,
//! the records a provider produced, the previous snapshot. Running the tools,
//! sleeping between polls and publishing events is left to the caller.

pub mod text;
pub mod models;
pub mod ranking;
pub mod clock;
pub mod llm;
pub mod commands;
pub mod services;
