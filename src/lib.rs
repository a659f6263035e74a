//! An in-memory model of a minimal Unix-style filesystem: a superblock with
//! capacity counters, a fixed table of inodes, a fixed pool of data blocks and
//! a flat directory.

pub mod counting;
pub mod decimal;
pub mod filesystem;
pub mod laws;
pub mod names;

pub use decimal::u32_to_string;
