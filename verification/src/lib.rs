//! A verified transit service-alert pipeline: raw agency alert records are
//! normalized, built into feed entities, partitioned into bus and rail
//! feeds, and serialized to their binary wire form, on a fixed poll cadence.
pub mod assemble;
pub mod cycle;
pub mod feed;
pub mod normalize;
pub mod raw;
pub mod split;
pub mod text;
pub mod vocab;
pub mod wire;
