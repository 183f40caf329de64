//! Verified core of an HTTP server capability provider: the listener
//! registry, call routing with its trust boundary, configuration defaults,
//! and the translation between HTTP requests and the dispatch payloads
//! exchanged with actor modules.

pub mod bridge;
pub mod codec;
pub mod config;
pub mod frame;
pub mod pairs;
pub mod provider;
pub mod registry;
