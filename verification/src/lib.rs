//! A small collection of single-threaded primitives: a reference-counted
//! value handle with explicit lifetime accounting, a last-in-first-out
//! stack, and a builder that turns a list of key/value pairs into a map.

pub mod handle;
pub mod stack;
pub mod table;
