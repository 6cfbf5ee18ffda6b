//! Provider routing for a multiplexer in front of several LLM backends.
//!
//! A [`ProviderRegistry`](registry::ProviderRegistry) is built once from a list of backend
//! configurations: each enabled entry has its credential resolved and its adapter
//! constructed, and the build fails as a whole on the first entry that cannot be
//! served. Afterwards the registry only answers lookups, by backend name or by model.
pub mod adapter;
pub mod config;
pub mod credential;
pub mod error;
pub mod files;
pub mod json;
pub mod registry;
pub mod search;
pub mod text;

