//! The reference kinds that hold a shard's lock.
pub mod multiple;
pub mod one;
