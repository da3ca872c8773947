//! A tool-calling conversation library: a bounded message context, a
//! tool-call extractor for model output, a registry of modules that tool
//! calls are dispatched to, and the bounded multi-turn loop that ties them
//! together.
pub mod json;
pub mod text;
pub mod module;
pub mod extract;
pub mod context;
pub mod expression;
pub mod math;
pub mod arithmetic;
pub mod error;
pub mod registry;
pub mod streaming;
pub mod client;
pub mod cli;
pub mod ollama;
