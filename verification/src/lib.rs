//! Turns a validated transaction into the ordered rows that a signer reads
//! before approving it.

pub mod element;
pub mod text;
pub mod amount;
pub mod args;
pub mod order;
pub mod parser;
pub mod laws;
