//! Snowflake-style unique identifier generation.
//!
//! An identifier packs, from the most significant bits down, a timestamp in
//! milliseconds since a configurable epoch, a data-center id (5 bits), a worker
//! id (5 bits) and a per-millisecond sequence number (12 bits).
mod clock;
pub mod generator;
pub mod layout;

pub use generator::{GeneratorError, IdOutcome, SnowflakeGenerator};
pub use layout::{decode_id, IdFields};
