//! Method and notification dispatch for a remote-procedure-call framework.
//!
//! The crate defines the contracts a handler must satisfy to be registered
//! and invoked by a dispatcher, independent of wire format or transport:
//! the [`Metadata`](calls::Metadata) capability for per-call context, the
//! method and notification handler traits, the tagged
//! [`RemoteProcedure`](calls::RemoteProcedure) entry that a registry stores,
//! adapters that turn plain functions into handlers, and the registry that
//! maps names to entries.

pub mod calls;
pub mod computation;
pub mod registry;
pub mod values;
