//! Time-ordered and random 128-bit identifiers.
pub mod ident;
pub mod generator;
pub mod layout;
mod outside;
pub mod timestamp;
pub mod uuid_v6;

pub use ident::{GenError, Uuid};
pub use timestamp::{Context, Timestamp};
pub use uuid_v6::new_v6;
