//! The input file of `pw2wannier90.x`, the interface to Wannier90.
pub mod input;
pub mod serialize;
