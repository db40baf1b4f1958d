//! Minting of a one-of-one credential token, as decisions on plain values.
//!
//! The crate derives and checks the program-owned addresses an instruction
//! names, lays out the calls that mint the token, register its metadata and
//! master edition and bind it to an identity hash, and tracks the instruction
//! through its phases. Performing the calls is the caller's part.

pub mod accounts;
pub mod address;
pub mod deriver;
pub mod errors;
pub mod flow;
pub mod instruction;
pub mod laws;
pub mod ledger;
pub mod plan;
pub mod records;
pub mod validator;
