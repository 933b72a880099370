//! Protocol client and round-trip verification engine for a line-oriented
//! notebook service: a codec that frames commands and splits prompt-delimited
//! responses, parsers for each response shape, the lifecycle record planted
//! and recalled across invocations, and the per-phase verification state
//! machines with their failure classification.

pub mod codec;
pub mod engine;
pub mod fault;
pub mod protocol;
pub mod record;
pub mod repr;
