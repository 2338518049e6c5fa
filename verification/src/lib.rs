//! Detection and sweeping of dust-attack UTXOs, with the decisions that the
//! wallet front end makes proved against their contracts.
mod types;

pub use types::Utxo;
pub mod text;
pub mod analyzer;
pub mod amount;
pub mod psbt_builder;
pub mod scanner;
pub mod cli;
pub mod report;
pub mod per_utxo;
pub mod laws;
pub mod guarantees;
