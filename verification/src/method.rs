//! The serializable method vocabulary of the binding layer.

pub mod account;
pub mod wallet;
