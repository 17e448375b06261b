//! A small agent-orchestration library: a message protocol shared with a
//! language-model backend, a declarative tool model with template binding, a
//! backend wire-format adapter, and a round-limited orchestration loop driven
//! over explicit response scripts so that every decision is verified.

pub mod agent;
pub mod chatgpt;
pub mod errors;
pub mod jsonarg;
pub mod llm;
pub mod serialization;
pub mod strutil;
pub mod tool;
