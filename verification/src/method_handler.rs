//! The dispatch core: what each method asks of the engine, and how each
//! engine outcome is wrapped into a response.

pub mod account;
