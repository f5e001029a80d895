//! What holds of the library as a whole.

pub mod argument;
pub mod bindings;
pub mod data;
pub mod history;
pub mod lifecycle;
pub mod listing;
pub mod messages;
pub mod operations;
pub mod outcomes;
pub mod pinning;
pub mod records;
pub mod refusals;
pub mod sequence;
pub mod step;
pub mod success;
pub mod values;
