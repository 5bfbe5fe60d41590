//! The memory that belongs to no other peripheral.

pub mod model;
