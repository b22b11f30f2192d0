//! Typed events of a chat protocol: decoding self-describing payloads from a
//! JSON tree into checked types, and encoding them back.
pub mod algorithm;
pub mod event;
pub mod fields;
pub mod ids;
pub mod js;
pub mod json;
pub mod presence;
pub mod room;
pub mod unsigned;
