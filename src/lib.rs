//! Proof requests for Cairo execution traces, and a driver for an external
//! prover program that takes its inputs from files in a working directory.

pub mod layout;
pub mod model;
pub mod stone;
mod foreign;
