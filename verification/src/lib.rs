//! A schema-less gRPC client core: reflection-based schema resolution,
//! descriptor-pool assembly, streaming-shape dispatch and connection caching,
//! with machine-checked contracts on the decision logic.

pub mod assoc;
pub mod cache;
pub mod client;
pub mod codec;
pub mod connection;
pub mod domain;
pub mod errors;
pub mod format;
pub mod invoke;
pub mod metadata;
pub mod reflection;
pub mod server;
pub mod strutil;
