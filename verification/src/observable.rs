//! Observable sources built from callbacks, generators and factories.
pub mod from_callback;
pub mod generate;
pub mod iif;
pub mod using;
