//! Typed function calls across a sandbox boundary: a registry of callable
//! functions, a dispatcher that checks argument types before anything runs,
//! and a call context that decides whether a batch of calls keeps or discards
//! the guest state it produced.

pub mod function_types;
pub mod error;
pub mod envelope;
pub mod registry;
pub mod wire;
pub mod dispatch;
pub mod memory_region;
pub mod sandbox;
pub mod call_ctx;
