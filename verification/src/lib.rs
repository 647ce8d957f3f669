//! A deterministic, ownership-gated registry of profiles, the directed
//! relations between them, attachments on both, and acknowledgments of
//! attachments.
//!
//! Every record lives at an address derived from its key fields, so the
//! registry needs neither an allocator nor a secondary index: a record is
//! found again by deriving its address. Each operation either commits as a
//! whole or leaves the registry as it was.

pub mod address;
pub mod error;
pub mod instructions;
pub mod laws;
pub mod model;
pub mod records;
pub mod registry;
pub mod slots;
