//! Cleanup of freshly created storage objects.
//!
//! The library holds the verified core of an object-storage cleanup handler:
//! it resolves the target bucket from a notification batch, decodes object
//! keys, accumulates the total byte size, builds a batched delete plan, and
//! decides the outcome of the invocation once the delete call has completed.
//! The surrounding process (event ingress, the storage client, logging) lives
//! outside the library and exchanges plain values with it.

pub mod errors;
pub mod event;
pub mod handler;
pub mod keys;
pub mod plan;
