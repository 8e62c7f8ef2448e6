//! The model of a `pw.x` input file, and the checks on it that its shape
//! cannot express.
use vstd::prelude::*;
use crate::error::Message;
use crate::number::Number;
use crate::text::wrap;
use vstd::string::StringExecFns;

verus! {

/// Representation of the input file for Quantum Espresso 6.2.
///
/// The format is defined with the principle that "only valid states are
/// representable". Some properties cannot be put into the types, such as that a
/// cutoff is positive: `validate` checks those.
///
/// Fields that have a default in `pw.x` are optional here. Fields that must be
/// given together are bundled, so that giving one without the others is not
/// possible. The counts `nat` and `ntyp` are not stored: they are the lengths of
/// `atomic_positions.coordinates` and of `species`.
#[derive(Debug, Clone, PartialEq)]
pub struct Input {
    /// The type of calculation (`scf`, `nscf`, `bands`) with the parameters
    /// specific to that type.
    pub calculation: Calculation,
    pub control: Control,
    pub system: System,
    /// The sawtooth electric field, which is written partly into the `control`
    /// and partly into the `system` namelist.
    pub efield: Option<Efield>,
    pub electrons: Electrons,
    pub species: Vec<Species>,
    /// For `nscf` and `bands` calculations `pw.x` takes the positions from the
    /// `scf` run; they are still required here, to derive `nat`.
    pub atomic_positions: Positions,
    pub k_points: KPoints,
}

/// The type of calculation. Each variant carries its convergence threshold,
/// which must be positive. The band count `nbnd` and the flag `nosym` belong
/// to the model, but no namelist line is written for them yet.
#[derive(Debug, Clone, PartialEq)]
pub enum Calculation {
    Scf { conv_thr: Number },
    Nscf { diago_thr_init: Number, nbnd: Option<u64>, nosym: Option<bool> },
    /// Whether `nosym` should always be set for a band calculation is left to
    /// the caller.
    Bands { diago_thr_init: Number, nbnd: Option<u64>, nosym: Option<bool> },
}

/// Options of the `control` namelist. An absent option leaves `pw.x` to its
/// own default.
#[derive(Debug, Clone, PartialEq, Eq)]
pub struct Control {
    pub restart_mode: Option<RestartMode>,
    pub disk_io: Option<DiskIO>,
    pub wf_collect: Option<bool>,
    /// The directory of the pseudopotentials, as the bytes of its path.
    pub pseudo_dir: Option<Vec<u8>>,
    /// The output directory, as the bytes of its path.
    pub out_dir: Option<Vec<u8>>,
    pub prefix: Option<String>,
}

#[derive(Debug, Clone, PartialEq, Eq)]
pub enum RestartMode {
    FromScratch,
    Restart,
}

#[derive(Debug, Clone, PartialEq, Eq)]
pub enum DiskIO {
    Low,
    Medium,
    High,
    NoDiskIO,
}

#[derive(Debug, Clone, PartialEq)]
pub struct System {
    pub ibrav: Ibrav,
    /// The lattice constant, written as `celldm(1)`. Must be positive.
    pub alat: Number,
    /// The wavefunction cutoff. Must be positive.
    pub ecutwfc: Number,
    /// The charge density cutoff. Must be positive. Whether it fits `ecutwfc`
    /// for the kind of pseudopotential in use is not checked.
    pub ecutrho: Number,
    pub occupations: Occupations,
    pub spin_type: Option<SpinType>,
}

/// The Bravais lattice. Only the free lattice, given by its cell vectors, is
/// supported; the fixed lattices of `pw.x` (`ibrav` other than 0) would each be
/// one more variant here, carrying the `celldm` values that it needs.
#[derive(Debug, Clone, PartialEq)]
pub enum Ibrav {
    Free(Cell),
}

/// How the states are occupied. Occupations read from the input file are not
/// modelled.
#[derive(Debug, Clone, PartialEq)]
pub enum Occupations {
    /// A kind of smearing, and the width `degauss` of it, which must be
    /// positive. The namelist says that smearing is used; no line is written
    /// for the kind or the width yet.
    Smearing(Smearing, Number),
    Tetrahedra,
    TetrahedraLin,
    TetrahedraOpt,
    Fixed,
}

#[derive(Debug, Clone, PartialEq, Eq)]
pub enum Smearing {
    Gaussian,
    MethfesselPaxton,
    MarzariVanderbilt,
    FermiDirac,
}

/// The spin representation. `NonPolarized` and `CollinearPolarized` stand for
/// `nspin = 1` and `nspin = 2`; `Noncollinear` for `noncolin = .true.` with
/// `lspinorb` as given. The spin component that a collinear calculation may
/// select is not modelled.
#[derive(Debug, Clone, PartialEq, Eq)]
pub enum SpinType {
    NonPolarized,
    CollinearPolarized,
    Noncollinear { spin_orbit: bool },
}

/// An electric field. The sawtooth field is the only kind supported; its five
/// parameters come together, so that none can be given without the others.
#[derive(Debug, Clone, PartialEq)]
pub enum Efield {
    TeField { dipfield: bool, edir: LatticeDirection, emaxpos: Number, eopreg: Number, eamp: Number },
}

#[derive(Debug, Clone, PartialEq, Eq)]
pub enum LatticeDirection {
    D1,
    D2,
    D3,
}

#[derive(Debug, Clone, PartialEq, Eq)]
pub struct Electrons {
    pub startingwfc: Option<StartingWfc>,
    pub diagonalization: Option<Diagonalization>,
}

#[derive(Debug, Clone, PartialEq, Eq)]
pub enum StartingWfc {
    Atomic,
    AtomicPlusRandom,
    Random,
    File,
}

#[derive(Debug, Clone, PartialEq, Eq)]
pub enum Diagonalization {
    David,
    Cg,
}

#[derive(Debug, Clone, PartialEq)]
pub struct Species {
    pub label: String,
    /// The atomic mass. Must be positive.
    pub mass: Number,
    pub pseudopotential_filename: String,
}

#[derive(Debug, Clone, PartialEq)]
pub struct Cell {
    pub units: LatticeUnits,
    /// The three lattice vectors, one per row.
    pub cell: [[Number; 3]; 3],
}

#[derive(Debug, Clone, PartialEq, Eq)]
pub enum LatticeUnits {
    Bohr,
    Angstrom,
    Alat,
}

#[derive(Debug, Clone, PartialEq)]
pub struct Positions {
    pub coordinate_type: PositionCoordinateType,
    pub coordinates: Vec<AtomCoordinate>,
}

#[derive(Debug, Clone, PartialEq, Eq)]
pub enum PositionCoordinateType {
    AlatCartesian,
    BohrCartesian,
    AngstromCartesian,
    Crystal,
    CrystalSG,
}

#[derive(Debug, Clone, PartialEq)]
pub struct AtomCoordinate {
    /// The label of the atom's species. That it names an entry of the species
    /// list is not checked.
    pub species: String,
    pub r: [Number; 3],
    pub if_pos: Option<[bool; 3]>,
}

/// A uniform grid of k-points in crystal coordinates, given by the
/// coordinates that occur along each of the three directions.
///
/// Along direction `d` the grid has `axes[d].len()` points, and `axes[d][i]` is
/// the coordinate of the `i`-th of them: `i` divided by that length. All
/// points have the same weight, one divided by the number of points.
#[derive(Debug, Clone, PartialEq)]
pub struct UniformGrid {
    pub axes: [Vec<Number>; 3],
    pub weight: Number,
}

/// The k-points, in one of four forms. Lists and paths in Cartesian
/// coordinates, the gamma point alone and contours are not modelled.
#[derive(Debug, Clone, PartialEq)]
pub enum KPoints {
    /// An explicit list: three crystal coordinates and a weight for each point.
    Crystal(Vec<[Number; 4]>),
    /// A uniform grid, written out point by point when the file is rendered.
    CrystalUniform(UniformGrid),
    Automatic {
        nk: [u64; 3],
        /// Whether the grid is shifted along each direction; `None` stands for
        /// no shift at all.
        sk: Option<[bool; 3]>,
    },
    /// A path for a band calculation: the ends of its panels, and the number
    /// of points on each panel.
    CrystalBands { nk_per_panel: u64, panel_bounds: Vec<[Number; 3]> },
}

/// A property of an `Input` that `validate` found violated. Each variant
/// carries the offending value.
#[derive(Debug, Clone, PartialEq)]
pub enum Error {
    LatticeConstant(Number),
    ConvThr(Number),
    DiagoThrInit(Number),
    Ecutwfc(Number),
    Ecutrho(Number),
    Smearing(Number),
    /// The label of the species, and its mass.
    Mass(String, Number),
    /// A species of the coordinate list that the species list lacks. No check
    /// reports it yet.
    Species(String),
}

pub type ErrorList = crate::error::ErrorList<Error>;

impl Message for Error {
    open spec fn message_spec(&self) -> Seq<char> {
        match *self {
            Error::LatticeConstant(x) => "Lattice constant `alat` must be positive; got "@
                + x.plain@ + " instead."@,
            Error::ConvThr(x) => "SCF convergence threshold `conv_thr` must be positive; got "@
                + x.plain@ + " instead."@,
            Error::DiagoThrInit(x) =>
                "Diagonalization convergence threshold `diago_thr_init` must be positive; got "@
                + x.plain@ + " instead."@,
            Error::Ecutwfc(x) => "Wavefunction cutoff energy `ecutwfc` must be positive; got "@
                + x.plain@ + " instead."@,
            Error::Ecutrho(x) => "Charge density cutoff energy `ecutrho` must be positive; got "@
                + x.plain@ + " instead."@,
            Error::Smearing(x) => "Smearing value must be positive; got "@ + x.plain@
                + " instead."@,
            Error::Mass(label, x) => "Atomic mass must be positive; for atom "@ + label@ + " got "@
                + x.plain@ + " instead."@,
            Error::Species(label) => "Species "@ + label@
                + " in coordinate list is not given in species list."@,
        }
    }

    fn message(&self) -> (s: String) {
        match self {
            Error::LatticeConstant(x) => wrap(
                "Lattice constant `alat` must be positive; got ",
                x.plain.as_str(),
                " instead.",
            ),
            Error::ConvThr(x) => wrap(
                "SCF convergence threshold `conv_thr` must be positive; got ",
                x.plain.as_str(),
                " instead.",
            ),
            Error::DiagoThrInit(x) => wrap(
                "Diagonalization convergence threshold `diago_thr_init` must be positive; got ",
                x.plain.as_str(),
                " instead.",
            ),
            Error::Ecutwfc(x) => wrap(
                "Wavefunction cutoff energy `ecutwfc` must be positive; got ",
                x.plain.as_str(),
                " instead.",
            ),
            Error::Ecutrho(x) => wrap(
                "Charge density cutoff energy `ecutrho` must be positive; got ",
                x.plain.as_str(),
                " instead.",
            ),
            Error::Smearing(x) => wrap(
                "Smearing value must be positive; got ",
                x.plain.as_str(),
                " instead.",
            ),
            Error::Mass(label, x) => {
                let mut s = wrap("Atomic mass must be positive; for atom ", label.as_str(), " got ");
                s.append(x.plain.as_str());
                s.append(" instead.");
                s
            },
            Error::Species(label) => wrap(
                "Species ",
                label.as_str(),
                " in coordinate list is not given in species list.",
            ),
        }
    }
}

impl Calculation {
    /// The convergence threshold of the calculation: `conv_thr` of a
    /// self-consistent run, `diago_thr_init` of the others.
    pub open spec fn threshold(self) -> Number {
        match self {
            Calculation::Scf { conv_thr } => conv_thr,
            Calculation::Nscf { diago_thr_init, .. } => diago_thr_init,
            Calculation::Bands { diago_thr_init, .. } => diago_thr_init,
        }
    }

    /// The error that reports the threshold `x` of this calculation.
    pub open spec fn threshold_error(self, x: Number) -> Error {
        match self {
            Calculation::Scf { .. } => Error::ConvThr(x),
            _ => Error::DiagoThrInit(x),
        }
    }
}

/// The error `e` where `broken` holds, and nothing where it does not.
pub open spec fn when(broken: bool, e: Error) -> Seq<Error> {
    if broken {
        seq![e]
    } else {
        Seq::empty()
    }
}

/// What is wrong with the smearing width, if anything: where smearing is
/// chosen, the width must be greater than zero.
pub open spec fn smearing_violations(occupations: Occupations) -> Seq<Error> {
    match occupations {
        Occupations::Smearing(_, degauss) => when(!degauss.positive(), Error::Smearing(degauss)),
        _ => Seq::empty(),
    }
}

/// One error for each species whose mass is not greater than zero, in the
/// order of the species list.
pub open spec fn mass_violations(species: Seq<Species>) -> Seq<Error>
    decreases species.len(),
{
    if species.len() == 0 {
        Seq::empty()
    } else {
        let last = species.last();
        mass_violations(species.drop_last()) + when(
            !last.mass.positive(),
            Error::Mass(last.label, last.mass),
        )
    }
}

/// What is wrong with the scalar fields, in the order of the checks: the
/// lattice constant, the convergence threshold, the two cutoffs, the smearing
/// width. Each must be greater than zero, which a zero, a negative number and
/// a NaN are not.
pub open spec fn scalar_violations(input: &Input) -> Seq<Error> {
    let system = input.system;
    let threshold = input.calculation.threshold();
    when(!system.alat.positive(), Error::LatticeConstant(system.alat)) + when(
        !threshold.positive(),
        input.calculation.threshold_error(threshold),
    ) + when(!system.ecutwfc.positive(), Error::Ecutwfc(system.ecutwfc)) + when(
        !system.ecutrho.positive(),
        Error::Ecutrho(system.ecutrho),
    ) + smearing_violations(system.occupations)
}

/// Every violated rule of an input, in the order of the checks: the scalar
/// fields first, then the masses.
pub open spec fn violations(input: &Input) -> Seq<Error> {
    scalar_violations(input) + mass_violations(input.species@)
}

/// Whether `r` is what checking `input` gives: `Ok` where no rule is
/// violated, and otherwise the list of all violations, which is then not
/// empty.
pub open spec fn validated(input: &Input, r: Result<(), ErrorList>) -> bool {
    match r {
        Ok(_) => violations(input).len() == 0,
        Err(list) => list.errs@ == violations(input) && list.errs@.len() > 0,
    }
}

/// Whether the smearing width is positive, where smearing is chosen.
pub open spec fn smearing_positive(occupations: Occupations) -> bool {
    match occupations {
        Occupations::Smearing(_, degauss) => degauss.positive(),
        _ => true,
    }
}

/// Whether every species has a positive mass.
pub open spec fn masses_positive(species: Seq<Species>) -> bool {
    forall|i: int| 0 <= i < species.len() ==> (#[trigger] species[i]).mass.positive()
}

/// Whether every checked quantity of the input other than the lattice
/// constant and the wavefunction cutoff is positive: the convergence
/// threshold, the density cutoff, the smearing width and the masses.
pub open spec fn rest_positive(input: &Input) -> bool {
    &&& input.calculation.threshold().positive()
    &&& input.system.ecutrho.positive()
    &&& smearing_positive(input.system.occupations)
    &&& masses_positive(input.species@)
}

/// No mass is reported exactly if every species has a positive mass.
pub proof fn lemma_masses_pass(species: Seq<Species>)
    ensures
        mass_violations(species).len() == 0 <==> masses_positive(species),
    decreases species.len(),
{
    if species.len() > 0 {
        let front = species.drop_last();
        lemma_masses_pass(front);
        if mass_violations(species).len() == 0 {
            assert forall|i: int| 0 <= i < species.len() implies (#[trigger] species[i]).mass.positive() by {
                if i < front.len() {
                    assert(species[i] == front[i]);
                }
            }
        }
        if masses_positive(species) {
            assert forall|i: int| 0 <= i < front.len() implies (#[trigger] front[i]).mass.positive() by {
                assert(front[i] == species[i]);
            }
            assert(species.last().mass.positive());
        }
    }
}

/// An input passes the checks exactly if every checked quantity is positive:
/// the lattice constant, the convergence threshold, both cutoffs, the
/// smearing width where smearing is chosen, and every mass.
pub proof fn lemma_passes_exactly_when_positive(input: &Input, r: Result<(), ErrorList>)
    requires
        validated(input, r),
    ensures
        r is Ok <==> input.system.alat.positive() && input.system.ecutwfc.positive()
            && rest_positive(input),
{
    lemma_masses_pass(input.species@);
}

/// An input whose lattice constant, cutoffs and convergence threshold are
/// positive passes the checks, provided that its smearing width and its
/// masses, which are checked too, are positive.
pub proof fn lemma_positive_input_passes(input: &Input, r: Result<(), ErrorList>)
    requires
        input.system.alat.positive(),
        input.system.ecutwfc.positive(),
        input.system.ecutrho.positive(),
        input.calculation.threshold().positive(),
        smearing_positive(input.system.occupations),
        masses_positive(input.species@),
        validated(input, r),
    ensures
        r is Ok,
{
    lemma_masses_pass(input.species@);
}

/// An input whose lattice constant is not greater than zero (it is zero,
/// negative or a NaN) fails the checks, and the first error of the list is the
/// one of the lattice constant, which carries that very value.
pub proof fn lemma_lattice_constant_is_reported(input: &Input, r: Result<(), ErrorList>)
    requires
        !input.system.alat.positive(),
        validated(input, r),
    ensures
        r is Err,
        r->Err_0.errs@.len() > 0,
        r->Err_0.errs@[0] == Error::LatticeConstant(input.system.alat),
{
}

/// An input that violates the rules of the lattice constant and of the
/// wavefunction cutoff, and no other rule, gives exactly two errors: the one
/// of the lattice constant, then the one of the cutoff.
pub proof fn lemma_two_violations_in_order(input: &Input, r: Result<(), ErrorList>)
    requires
        !input.system.alat.positive(),
        !input.system.ecutwfc.positive(),
        rest_positive(input),
        validated(input, r),
    ensures
        r is Err,
        r->Err_0.errs@ == seq![
            Error::LatticeConstant(input.system.alat),
            Error::Ecutwfc(input.system.ecutwfc),
        ],
{
    lemma_masses_pass(input.species@);
    assert(violations(input) =~= seq![
        Error::LatticeConstant(input.system.alat),
        Error::Ecutwfc(input.system.ecutwfc),
    ]);
}

/// Whatever else is wrong with an input, the error of the lattice constant
/// comes before the error of the wavefunction cutoff.
pub proof fn lemma_lattice_constant_precedes_cutoff(input: &Input, r: Result<(), ErrorList>)
    requires
        !input.system.alat.positive(),
        !input.system.ecutwfc.positive(),
        validated(input, r),
    ensures
        r is Err,
        r->Err_0.errs@.len() >= 2,
        r->Err_0.errs@[0] == Error::LatticeConstant(input.system.alat),
        exists|i: int|
            1 <= i <= 2 && #[trigger] r->Err_0.errs@[i] == Error::Ecutwfc(input.system.ecutwfc),
{
    let v = violations(input);
    if input.calculation.threshold().positive() {
        assert(v[1] == Error::Ecutwfc(input.system.ecutwfc));
    } else {
        assert(v[2] == Error::Ecutwfc(input.system.ecutwfc));
    }
}

/// The violations of an input whose density cutoff is not greater than zero
/// hold the error of the density cutoff, which carries that very value.
pub proof fn lemma_density_cutoff_violates(input: &Input)
    requires
        !input.system.ecutrho.positive(),
    ensures
        violations(input).contains(Error::Ecutrho(input.system.ecutrho)),
{
    let system = input.system;
    let threshold = input.calculation.threshold();
    let a = when(!system.alat.positive(), Error::LatticeConstant(system.alat));
    let b = when(!threshold.positive(), input.calculation.threshold_error(threshold));
    let c = when(!system.ecutwfc.positive(), Error::Ecutwfc(system.ecutwfc));
    let i = a.len() + b.len() + c.len();
    assert(violations(input)[i as int] == Error::Ecutrho(system.ecutrho));
}

/// An input whose density cutoff is not greater than zero fails the checks,
/// and the list of errors holds the one of the density cutoff.
pub proof fn lemma_density_cutoff_is_reported(input: &Input, r: Result<(), ErrorList>)
    requires
        !input.system.ecutrho.positive(),
        validated(input, r),
    ensures
        r is Err,
        r->Err_0.errs@.contains(Error::Ecutrho(input.system.ecutrho)),
{
    lemma_density_cutoff_violates(input);
}

/// A NaN is no positive number: an input whose lattice constant is a NaN
/// fails the checks, whatever its other fields hold, and so is never
/// rendered.
pub proof fn lemma_nan_is_reported(input: &Input, r: Result<(), ErrorList>)
    requires
        input.system.alat.is_nan(),
        validated(input, r),
    ensures
        r is Err,
        r->Err_0.errs@[0] == Error::LatticeConstant(input.system.alat),
        rest_positive(input) && input.system.ecutwfc.positive() ==> r->Err_0.errs@ == seq![
            Error::LatticeConstant(input.system.alat),
        ],
{
    lemma_masses_pass(input.species@);
    if rest_positive(input) && input.system.ecutwfc.positive() {
        assert(violations(input) =~= seq![Error::LatticeConstant(input.system.alat)]);
    }
}

/// Checks the properties of an `Input` that its type does not enforce, all of
/// them in one pass: returns `Ok` where none is violated, and otherwise one
/// error for each violated rule, in the order of the checks.
///
/// Checked: that the lattice constant, the convergence threshold of the
/// calculation, both cutoffs, the smearing width (where smearing is chosen)
/// and every species' mass are greater than zero. A zero, a negative number
/// and a NaN are each reported.
///
/// Not checked: that the cell has a volume; that `emaxpos` and `eopreg` lie
/// between 0 and 1; that a tetrahedron method comes with automatic k-points;
/// that the species of the coordinate list occur in the species list.
pub fn validate(input: &Input) -> (r: Result<(), ErrorList>)
    ensures
        validated(input, r),
{
    let mut errs: Vec<Error> = Vec::new();
    let system = &input.system;

    if !system.alat.is_positive() {
        errs.push(Error::LatticeConstant(system.alat.clone()));
    }
    match &input.calculation {
        Calculation::Scf { conv_thr } => {
            if !conv_thr.is_positive() {
                errs.push(Error::ConvThr(conv_thr.clone()));
            }
        },
        Calculation::Nscf { diago_thr_init, .. } => {
            if !diago_thr_init.is_positive() {
                errs.push(Error::DiagoThrInit(diago_thr_init.clone()));
            }
        },
        Calculation::Bands { diago_thr_init, .. } => {
            if !diago_thr_init.is_positive() {
                errs.push(Error::DiagoThrInit(diago_thr_init.clone()));
            }
        },
    }
    if !system.ecutwfc.is_positive() {
        errs.push(Error::Ecutwfc(system.ecutwfc.clone()));
    }
    if !system.ecutrho.is_positive() {
        errs.push(Error::Ecutrho(system.ecutrho.clone()));
    }
    if let Occupations::Smearing(_, degauss) = &system.occupations {
        if !degauss.is_positive() {
            errs.push(Error::Smearing(degauss.clone()));
        }
    }
    assert(errs@ =~= scalar_violations(input));

    let n = input.species.len();
    let mut i: usize = 0;
    while i < n
        invariant
            n == input.species@.len(),
            i <= n,
            errs@ == scalar_violations(input) + mass_violations(input.species@.take(i as int)),
        decreases n - i,
    {
        let species = &input.species[i];
        proof {
            let next = input.species@.take(i + 1);
            assert(next.drop_last() =~= input.species@.take(i as int));
            assert(next.last() == *species);
        }
        if !species.mass.is_positive() {
            errs.push(Error::Mass(species.label.clone(), species.mass.clone()));
        }
        assert(errs@ =~= scalar_violations(input) + mass_violations(input.species@.take(i + 1)));
        i = i + 1;
    }
    assert(input.species@.take(n as int) =~= input.species@);

    if errs.len() == 0 {
        Ok(())
    } else {
        Err(ErrorList { errs })
    }
}

/// The points of one row of a grid: first index `k0`, second index `k1`, and
/// the third index running from 0 up to `n2`.
pub open spec fn grid_row(k0: nat, k1: nat, n2: nat) -> Seq<(nat, nat, nat)> {
    Seq::new(n2, |k2: int| (k0, k1, k2 as nat))
}

/// The points of one plane of a grid: first index `k0`, and the rows for the
/// second index from 0 up to `n1`, one after the other.
pub open spec fn grid_plane(k0: nat, n1: nat, n2: nat) -> Seq<(nat, nat, nat)>
    decreases n1,
{
    if n1 == 0 {
        Seq::empty()
    } else {
        grid_plane(k0, (n1 - 1) as nat, n2) + grid_row(k0, (n1 - 1) as nat, n2)
    }
}

/// The index triples of a grid with `n0`, `n1` and `n2` points along its
/// directions: the planes for the first index from 0 up to `n0`, one after the
/// other. The first index varies slowest and the third fastest.
pub open spec fn grid(n0: nat, n1: nat, n2: nat) -> Seq<(nat, nat, nat)>
    decreases n0,
{
    if n0 == 0 {
        Seq::empty()
    } else {
        grid((n0 - 1) as nat, n1, n2) + grid_plane((n0 - 1) as nat, n1, n2)
    }
}

/// Every index triple of a grid is within the grid: each index is below the
/// number of points along its direction.
pub proof fn lemma_grid_in_range(n0: nat, n1: nat, n2: nat)
    ensures
        forall|j: int|
            0 <= j < grid(n0, n1, n2).len() ==> {
                let p = #[trigger] grid(n0, n1, n2)[j];
                p.0 < n0 && p.1 < n1 && p.2 < n2
            },
    decreases n0,
{
    if n0 > 0 {
        lemma_grid_in_range((n0 - 1) as nat, n1, n2);
        lemma_plane_in_range((n0 - 1) as nat, n1, n2);
        let below = grid((n0 - 1) as nat, n1, n2);
        let plane = grid_plane((n0 - 1) as nat, n1, n2);
        assert forall|j: int| 0 <= j < grid(n0, n1, n2).len() implies {
            let p = #[trigger] grid(n0, n1, n2)[j];
            p.0 < n0 && p.1 < n1 && p.2 < n2
        } by {
            if j < below.len() {
                assert(grid(n0, n1, n2)[j] == below[j]);
            } else {
                assert(grid(n0, n1, n2)[j] == plane[j - below.len()]);
            }
        }
    }
}

/// Every index triple of a plane has the plane's first index, and its other
/// two are below the numbers of points along their directions.
pub proof fn lemma_plane_in_range(k0: nat, n1: nat, n2: nat)
    ensures
        forall|j: int|
            0 <= j < grid_plane(k0, n1, n2).len() ==> {
                let p = #[trigger] grid_plane(k0, n1, n2)[j];
                p.0 == k0 && p.1 < n1 && p.2 < n2
            },
    decreases n1,
{
    if n1 > 0 {
        lemma_plane_in_range(k0, (n1 - 1) as nat, n2);
        let below = grid_plane(k0, (n1 - 1) as nat, n2);
        let row = grid_row(k0, (n1 - 1) as nat, n2);
        assert forall|j: int| 0 <= j < grid_plane(k0, n1, n2).len() implies {
            let p = #[trigger] grid_plane(k0, n1, n2)[j];
            p.0 == k0 && p.1 < n1 && p.2 < n2
        } by {
            if j < below.len() {
                assert(grid_plane(k0, n1, n2)[j] == below[j]);
            } else {
                assert(grid_plane(k0, n1, n2)[j] == row[j - below.len()]);
            }
        }
    }
}

/// A plane of a grid has as many points as its two directions allow.
pub proof fn lemma_plane_len(k0: nat, n1: nat, n2: nat)
    ensures
        grid_plane(k0, n1, n2).len() == n1 * n2,
    decreases n1,
{
    if n1 > 0 {
        let m = (n1 - 1) as nat;
        lemma_plane_len(k0, m, n2);
        assert(m * n2 + n2 == n1 * n2) by (nonlinear_arith)
            requires
                m + 1 == n1,
        ;
    } else {
        assert(n1 * n2 == 0) by (nonlinear_arith)
            requires
                n1 == 0,
        ;
    }
}

/// A grid has `n0 * n1 * n2` points.
pub proof fn lemma_grid_len(n0: nat, n1: nat, n2: nat)
    ensures
        grid(n0, n1, n2).len() == n0 * n1 * n2,
    decreases n0,
{
    if n0 > 0 {
        let m = (n0 - 1) as nat;
        lemma_grid_len(m, n1, n2);
        lemma_plane_len(m, n1, n2);
        assert(m * n1 * n2 + n1 * n2 == n0 * n1 * n2) by (nonlinear_arith)
            requires
                m + 1 == n0,
        ;
    } else {
        assert(n0 * n1 * n2 == 0) by (nonlinear_arith)
            requires
                n0 == 0,
        ;
    }
}

/// In a plane, the point with the indices `k1` and `k2` stands at the place
/// `k1 * n2 + k2`.
pub proof fn lemma_plane_index(k0: nat, n1: nat, n2: nat, k1: nat, k2: nat)
    requires
        k1 < n1,
        k2 < n2,
    ensures
        k1 * n2 + k2 < grid_plane(k0, n1, n2).len(),
        grid_plane(k0, n1, n2)[(k1 * n2 + k2) as int] == (k0, k1, k2),
    decreases n1,
{
    let below = grid_plane(k0, (n1 - 1) as nat, n2);
    let row = grid_row(k0, (n1 - 1) as nat, n2);
    lemma_plane_len(k0, n1, n2);
    lemma_plane_len(k0, (n1 - 1) as nat, n2);
    if k1 < n1 - 1 {
        lemma_plane_index(k0, (n1 - 1) as nat, n2, k1, k2);
        assert(grid_plane(k0, n1, n2)[(k1 * n2 + k2) as int] == below[(k1 * n2 + k2) as int]);
    } else {
        assert(grid_plane(k0, n1, n2)[(k1 * n2 + k2) as int] == row[k2 as int]);
    }
}

/// In a grid, the point with the indices `k0`, `k1` and `k2` stands at the
/// place `(k0 * n1 + k1) * n2 + k2`: the first index varies slowest and the
/// third fastest.
pub proof fn lemma_grid_index(n0: nat, n1: nat, n2: nat, k0: nat, k1: nat, k2: nat)
    requires
        k0 < n0,
        k1 < n1,
        k2 < n2,
    ensures
        (k0 * n1 + k1) * n2 + k2 < grid(n0, n1, n2).len(),
        grid(n0, n1, n2)[((k0 * n1 + k1) * n2 + k2) as int] == (k0, k1, k2),
    decreases n0,
{
    let below = grid((n0 - 1) as nat, n1, n2);
    let plane = grid_plane((n0 - 1) as nat, n1, n2);
    let place = ((k0 * n1 + k1) * n2 + k2) as int;
    lemma_grid_len(n0, n1, n2);
    lemma_grid_len((n0 - 1) as nat, n1, n2);
    lemma_plane_len((n0 - 1) as nat, n1, n2);
    assert(place == k0 * n1 * n2 + (k1 * n2 + k2)) by (nonlinear_arith)
        requires
            place == (k0 * n1 + k1) * n2 + k2,
    ;
    if k0 < n0 - 1 {
        lemma_grid_index((n0 - 1) as nat, n1, n2, k0, k1, k2);
        assert(grid(n0, n1, n2)[place] == below[place]);
    } else {
        lemma_plane_index(k0, n1, n2, k1, k2);
        assert(grid(n0, n1, n2)[place] == plane[(k1 * n2 + k2) as int]);
    }
}

/// An index triple as a tuple of naturals.
pub open spec fn triple(p: [u64; 3]) -> (nat, nat, nat) {
    (p[0] as nat, p[1] as nat, p[2] as nat)
}

/// The index triples of a list, in order.
pub open spec fn triples(ps: Seq<[u64; 3]>) -> Seq<(nat, nat, nat)> {
    ps.map_values(|p: [u64; 3]| triple(p))
}

/// Generates the index triples of a uniform grid with `nk[0]`, `nk[1]` and
/// `nk[2]` points along its directions, the first index varying slowest and
/// the third fastest. The point with indices `(k0, k1, k2)` has the crystal
/// coordinates `k0 / nk[0]`, `k1 / nk[1]`, `k2 / nk[2]`.
pub fn generate_uniform_kpoints(nk: [u64; 3]) -> (ks: Vec<[u64; 3]>)
    ensures
        triples(ks@) == grid(nk[0] as nat, nk[1] as nat, nk[2] as nat),
        ks@.len() == nk[0] * nk[1] * nk[2],
{
    let mut ks: Vec<[u64; 3]> = Vec::new();
    let n0 = nk[0];
    let n1 = nk[1];
    let n2 = nk[2];
    assert(triples(ks@) =~= grid(0, n1 as nat, n2 as nat));
    let mut k0: u64 = 0;
    while k0 < n0
        invariant
            k0 <= n0,
            triples(ks@) == grid(k0 as nat, n1 as nat, n2 as nat),
        decreases n0 - k0,
    {
        let mut k1: u64 = 0;
        assert(triples(ks@) =~= grid(k0 as nat, n1 as nat, n2 as nat) + grid_plane(
            k0 as nat,
            0,
            n2 as nat,
        ));
        while k1 < n1
            invariant
                k0 < n0,
                k1 <= n1,
                triples(ks@) == grid(k0 as nat, n1 as nat, n2 as nat) + grid_plane(
                    k0 as nat,
                    k1 as nat,
                    n2 as nat,
                ),
            decreases n1 - k1,
        {
            let mut k2: u64 = 0;
            let ghost before = triples(ks@);
            assert(triples(ks@) =~= before + grid_row(k0 as nat, k1 as nat, 0));
            while k2 < n2
                invariant
                    k2 <= n2,
                    triples(ks@) == before + grid_row(k0 as nat, k1 as nat, k2 as nat),
                decreases n2 - k2,
            {
                let p: [u64; 3] = [k0, k1, k2];
                let ghost row = grid_row(k0 as nat, k1 as nat, k2 as nat);
                let ghost seen = triples(ks@);
                ks.push(p);
                assert(triple(p) == (k0 as nat, k1 as nat, k2 as nat));
                assert(triples(ks@) =~= seen.push(triple(p)));
                assert(grid_row(k0 as nat, k1 as nat, (k2 + 1) as nat) =~= row.push(triple(p)));
                assert(triples(ks@) =~= before + grid_row(k0 as nat, k1 as nat, (k2 + 1) as nat));
                k2 = k2 + 1;
            }
            assert(triples(ks@) =~= grid(k0 as nat, n1 as nat, n2 as nat) + grid_plane(
                k0 as nat,
                (k1 + 1) as nat,
                n2 as nat,
            ));
            k1 = k1 + 1;
        }
        k0 = k0 + 1;
    }
    proof {
        lemma_grid_len(n0 as nat, n1 as nat, n2 as nat);
        assert(triples(ks@).len() == ks@.len());
    }
    ks
}

} // verus!
