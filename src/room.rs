//! Events that belong to a room.

pub mod encrypted;
