//! An embedded, verified persistence core for personal health-tracking data.
//!
//! The library models a single-writer relational store over six record kinds
//! (users, food entries, blood-glucose readings, medications, chat messages,
//! and a paged/enveloped response shape). It owns the schema, the typed CRUD
//! operations, and the date-range paginated queries; callers marshal typed
//! records in and out. Durability and the host shell live outside the
//! library: an embedding hands the store a resolved data directory at
//! construction and mirrors mutations to its own backing file.

pub mod envelope;
pub mod laws;
pub mod order;
pub mod payloads;
pub mod query;
pub mod records;
pub mod store;
