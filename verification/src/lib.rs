//! A partition of an append-only event log read as a table: the schema of a
//! scan, the mapping of one record to typed cells, and the bind / init /
//! produce protocol that fills fixed-capacity batches.

pub mod bind;
pub mod consume;
pub mod error;
pub mod json;
pub mod mapping;
pub mod opt;
pub mod partition;
pub mod record;
pub mod text;
pub mod topic;
