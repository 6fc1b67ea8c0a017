//! A memory-safe boundary layer for an embedded Datalog-style store.
//!
//! The library lets a foreign host drive the store through flat, explicit
//! operations: stage typed variable bindings on a query builder, shape the
//! engine's answers into scalar / tuple / collection / row-set results,
//! read transaction reports, and plan change notifications for registered
//! observers.  Every heap value that crosses the boundary is owned by a
//! [`registry::Registry`] and addressed by an opaque integer handle, so a
//! stale or mismatched handle is detected and reported instead of being
//! undefined behaviour.
//!
//! Misuse policy: the boundary never panics.  Engine-level failures travel
//! as message strings inside a result envelope; boundary misuse (a wrong
//! tag, a dead handle, an out-of-range index, malformed keyword or UUID
//! text) is reported through an absent result, uniformly across the
//! surface.
//!
//! The engine itself (durable storage, transaction application, query
//! execution, schema) is an external collaborator: its answers enter the
//! library as plain values, and the library's contracts state exactly how
//! those answers are shaped for the foreign caller.

pub mod accessors;
pub mod envelope;
pub mod keyed;
pub mod keyword;
pub mod laws;
pub mod observer;
pub mod query;
pub mod registry;
pub mod report;
pub mod store;
pub mod uuid;
pub mod value;
