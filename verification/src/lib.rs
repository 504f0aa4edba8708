//! Typed adaptation layer between application code and a callback-driven
//! cluster-management runtime.
//!
//! The verified core has two parts: the async completion bridge
//! ([`channel`], [`bridge`]), which turns every native Begin/End call pair
//! into a single awaitable outcome delivered exactly once, and the
//! extensible settings chain codec ([`settings`], [`chain`]), which walks
//! the versioned extension-structure chain into a flat owned record and
//! re-serializes such a record for a native write, merging against the
//! currently effective values.

pub mod bridge;
pub mod chain;
pub mod channel;
pub mod client;
pub mod settings;
pub mod store;
