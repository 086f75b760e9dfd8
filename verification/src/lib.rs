//! A verified event-to-span correlation engine.
//!
//! The library turns a stream of telemetry events (LLM calls, streaming
//! markers, paired waiting markers) into spans in the Zipkin wire format.
//! The correlation engine keeps a stack of open spans for nesting, pairs
//! `*_START` / `*_END` wait markers, and derives span names, kinds and tags
//! from event content.

pub mod engine;
pub mod event;
pub mod ids;
pub mod laws;
pub mod policy;
pub mod polyfill;
pub mod span;
pub mod strmap;
pub mod text;
