//! The errors this layer itself can report.
//!
//! Everything else is propagated from the engine by the caller that drives
//! it; the two cases below are the only ones this layer decides.

use vstd::prelude::*;

verus! {

/// An error raised while a method was being dispatched.
#[derive(Debug)]
pub enum DispatchError {
    /// An output given in wire form was refused by the engine's own check.
    Block(iota_sdk::types::block::Error),
    /// An amount string that is not a decimal number that fits in 64
    /// unsigned bits. Carries the refused string.
    InvalidAmount(String),
}

impl DispatchError {
    /// Which kind of error this is, as a stable label.
    pub fn label(&self) -> (r: &'static str)
        ensures
            (self is Block <==> r@ =~= "block"@),
            (self is InvalidAmount <==> r@ =~= "invalid amount"@),
    {
        proof {
            reveal_strlit("block");
            reveal_strlit("invalid amount");
        }
        match self {
            DispatchError::Block(_) => "block",
            DispatchError::InvalidAmount(_) => "invalid amount",
        }
    }
}

} // verus!
