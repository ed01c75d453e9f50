//! Bootstrap fetcher core: decoding of an untagged remote API envelope,
//! extraction of a nested download URL, and the lifecycle of a staged
//! temporary artifact file.

pub mod config;
pub mod envelope;
pub mod error;
pub mod json;
pub mod pipeline;
pub mod staging;
