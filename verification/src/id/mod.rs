//! Unique identifier generators.

use vstd::prelude::*;

pub mod snowflake;
pub mod uuid;

pub use snowflake::{
    compose_id, fits_layout, Snowflake, SnowflakeError, SnowflakeView, MACHINE_ID_MASK,
    SEQUENCE_MASK, SNOWFLAKE_EPOCH, SNOWFLAKE_EPOCH_MILLIS,
};
pub use self::uuid::UuidGenerator;

verus! {

/// A source of unique identifiers.
pub trait UidGenerator {
    type Item;

    type Error;

    fn next(&mut self) -> Result<Self::Item, Self::Error>;
}

} // verus!
