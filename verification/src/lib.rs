//! Client-side helper layer for an on-chain trading program: derives
//! program-owned account addresses, builds protocol instructions, assembles
//! them into submission-ready transactions, and classifies the outcome of a
//! submission attempt.

pub mod amount;
pub mod derive;
pub mod errors;
pub mod flows;
pub mod instruction;
pub mod keys;
pub mod submit;
pub mod txn;
