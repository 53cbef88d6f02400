//! A verified, append-only arena for extending the effective lifetime of
//! individually owned values.
//!
//! The central type is [`GarbageCollector`]: values are moved into it by
//! registration and stay exactly where they were stored, in insertion order,
//! until every entry is released at once — either when the collector itself
//! goes out of scope, or early through [`GarbageCollector::clean`].
//! Registration hands back a stable handle; [`GarbageCollector::get`] turns a
//! handle into a reference whose lifetime is bound to the collector, not to
//! the scope that once owned the value.

pub mod collector;
pub mod laws;
pub mod shared;

pub use collector::GarbageCollector;
pub use shared::SharedCollector;
