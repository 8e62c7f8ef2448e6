//! The input file of `bands.x`, the band-structure post-processor.
pub mod input;
pub mod serialize;
