//! The bodies that requests carry.

pub mod json;
