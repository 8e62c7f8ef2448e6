//! The input file of `pw.x`, the self-consistent-field and band-structure
//! calculator.
pub mod input;
pub mod serialize;
