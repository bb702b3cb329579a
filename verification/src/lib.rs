//! Command vocabulary and dispatch core for a wallet engine binding.
//!
//! The crate defines the serializable method vocabulary understood by the
//! binding layer, the plan that each method is dispatched to, and the
//! response envelope that each engine outcome is wrapped into. All heavy
//! work (signing, input selection, node communication) belongs to the
//! engine; this layer decides which engine operation each method maps to,
//! validates the few fields it owns, and assembles the response.

pub mod engine;
pub mod error;
pub mod method;
pub mod method_handler;
pub mod response;
pub mod numeric;
pub mod payload;
