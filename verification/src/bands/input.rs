//! The model of a `bands.x` input file.
use vstd::prelude::*;

verus! {

/// The input of `bands.x`. The spin component that a collinear calculation
/// may select is not modelled.
#[derive(Debug, Clone, PartialEq, Eq)]
pub struct Input {
    pub prefix: Option<String>,
    /// The output directory, as the bytes of its path.
    pub out_dir: Option<Vec<u8>>,
    /// The file that receives the bands, as the bytes of its path.
    pub filband: Option<Vec<u8>>,
    pub lsym: bool,
}

} // verus!
