//! State transitions of a profile-and-reply ledger program: instruction
//! decoding, record layout, address checks and the reward side effect.
pub mod address;
pub mod codec;
pub mod error;
pub mod instruction;
pub mod laws;
pub mod processor;
pub mod state;
