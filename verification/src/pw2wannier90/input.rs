//! The model of a `pw2wannier90.x` input file.
use vstd::prelude::*;

verus! {

/// The input of `pw2wannier90.x`.
///
/// The field `prefix`, which is optional for `pw.x` and `bands.x`, is required
/// here: `pw2wannier90.x` would accept its absence, but its default differs
/// from theirs. The spin component that a collinear calculation may select is
/// not modelled.
#[derive(Debug, Clone, PartialEq, Eq)]
pub struct Input {
    pub prefix: String,
    /// The output directory, as the bytes of its path.
    pub out_dir: Option<Vec<u8>>,
    pub seedname: String,
    pub write_unk: bool,
    pub write_amn: bool,
    pub write_mmn: bool,
    pub write_spn: bool,
}

} // verus!
