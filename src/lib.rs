//! Client side of a compressed live event stream: the phrase-dictionary
//! decoder for inbound payloads, the envelopes and commands exchanged with the
//! connection worker, the worker's decision logic, and the caller-side manager.

pub mod codec;
mod text;
pub mod json;
pub mod envelope;
pub mod worker;
pub mod manager;
