//! Weight accounting for cross-consensus message instructions.
//!
//! The crate exposes a fixed table of per-instruction cost records and a
//! combination rule that turns a record, together with the current database
//! access costs, into a total weight. All arithmetic saturates: a weight
//! gates resource consumption and must never wrap around to a small value.

pub mod instruction;
pub mod laws;
pub mod table;
pub mod weight;
