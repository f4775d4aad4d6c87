//! Small custom data types: arithmetic operation tags, web events with
//! their descriptions, and plain enumerations with numeric values.
pub mod categories;
pub mod events;
pub mod operations;
pub mod records;
