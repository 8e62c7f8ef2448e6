//! Typed models of the input files of three electronic-structure programs
//! (`pw.x`, `bands.x` and `pw2wannier90.x`), the runtime checks that the types
//! alone cannot express, and renderers that turn a model into the exact
//! namelist and card text the programs read.
//!
//! Every renderer is specified by a function from the model to the sequence
//! of characters it must produce, and is proved to produce exactly that.
pub mod text;
pub mod number;
pub mod error;
pub mod serialize_util;
pub mod pw;
pub mod bands;
pub mod pw2wannier90;


