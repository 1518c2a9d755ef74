//! Snowflake identifiers.
//!
//! A snowflake is a 64-bit value made of a millisecond timestamp, a datacenter
//! id, a machine id and a sequence number:
//!
//! | Timestamp | Datacenter ID | Machine ID | Sequence |
//! | --------- | ------------- | ---------- | -------- |
//! | 42 bits   | 5 bits        | 5 bits     | 12 bits  |
//!
//! The timestamp counts milliseconds from an epoch that the caller chooses.
//! The flakes of one generator go up from call to call, so no two are equal,
//! as long as the timestamp fits within its 42 bits.
//!
//! ## Example
//!
//! ```rust
//! use flake::IdGenerator;
//! use std::time::UNIX_EPOCH;
//!
//! let mut generator = IdGenerator::new(UNIX_EPOCH, 1, 1).unwrap();
//! let snowflake = generator.id();
//! ```
pub mod clock;
pub mod decimal;
pub mod generator;
pub mod id;
pub mod run;

pub use generator::{IdError, IdGenerator};
pub use id::Flake;
