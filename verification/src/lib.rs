//! A Snowflake-style generator of 64-bit unique identifiers.
//!
//! Each identifier packs a millisecond Unix timestamp, two small identity
//! fields fixed at construction, and a per-millisecond sequence counter into
//! adjacent bit fields of one `i64`. A single [`Snowberry`] instance mints
//! strictly increasing identifiers as long as the timestamps it is handed do
//! not decrease; instances with distinct identity fields never collide.

pub mod codec;
pub mod generator;
pub mod laws;

pub use codec::decode_id;
pub use codec::encode_id;
pub use codec::HARVESTED_COUNT_BITS;
pub use codec::HARVESTED_COUNT_MASK;
pub use codec::MAX_SEED;
pub use codec::MAX_SOIL;
pub use codec::MAX_UNIX_TIME;
pub use codec::SEED_BITS;
pub use codec::SOIL_BITS;
pub use generator::Snowberry;
pub use generator::SnowberryError;
pub use generator::SnowberryView;
