//! Rendering of a `pw.x` input file.
use vstd::prelude::*;
use vstd::string::StringExecFns;
use vstd::utf8::{decode_utf8, valid_utf8};
use crate::error::Message;
use crate::number::Number;
use crate::pw::input::{
    generate_uniform_kpoints, grid, lemma_density_cutoff_violates, lemma_grid_in_range, triples,
    validate, violations,
    AtomCoordinate, Calculation, Diagonalization, DiskIO, Efield, ErrorList, Ibrav, Input,
    KPoints, LatticeDirection, LatticeUnits, Occupations, PositionCoordinateType, RestartMode,
    Species, SpinType, StartingWfc, UniformGrid,
};
use crate::serialize_util::{push_bool_field, with_bool_field};
use crate::text::{
    count_string, decimal, decimal_string, first_line, join, join_lines, prefixed, push_line,
    spaced3, spaced3_string, spaced4, spaced4_string, utf8_text, views, wrap,
};

verus! {

/// Why an input file could not be rendered.
#[derive(Debug)]
pub enum Error {
    /// The input violates the rules that `validate` checks.
    Input(ErrorList),
    /// The path `pseudo_dir` is not valid UTF-8.
    PseudoDir,
    /// The path `out_dir` is not valid UTF-8.
    OutDir,
}

impl From<ErrorList> for Error {
    fn from(errs: ErrorList) -> (e: Error) {
        Error::Input(errs)
    }
}

impl vstd::std_specs::convert::FromSpecImpl<ErrorList> for Error {
    open spec fn obeys_from_spec() -> bool {
        true
    }

    open spec fn from_spec(errs: ErrorList) -> Error {
        Error::Input(errs)
    }
}

impl Message for Error {
    open spec fn message_spec(&self) -> Seq<char> {
        match *self {
            Error::Input(list) => list.message_spec(),
            Error::PseudoDir => "`pseudo_dir` is not valid UTF-8"@,
            Error::OutDir => "`out_dir` is not valid UTF-8"@,
        }
    }

    fn message(&self) -> (s: String) {
        match self {
            Error::Input(list) => list.message(),
            Error::PseudoDir => String::from_str("`pseudo_dir` is not valid UTF-8"),
            Error::OutDir => String::from_str("`out_dir` is not valid UTF-8"),
        }
    }
}

/// A `Field` has a method `value()` which returns its textual representation
/// on the right-hand side of a `field_name = value` expression in the input
/// file.
pub trait Field {
    /// The text of the value.
    spec fn value_spec(&self) -> Seq<char>;

    /// Writes the text of the value.
    fn value(&self) -> (s: String)
        ensures
            s@ == self.value_spec(),
    ;
}

impl Field for Calculation {
    open spec fn value_spec(&self) -> Seq<char> {
        match *self {
            Calculation::Scf { .. } => "scf"@,
            Calculation::Nscf { .. } => "nscf"@,
            Calculation::Bands { .. } => "bands"@,
        }
    }

    fn value(&self) -> (s: String) {
        String::from_str(
            match self {
                Calculation::Scf { .. } => "scf",
                Calculation::Nscf { .. } => "nscf",
                Calculation::Bands { .. } => "bands",
            },
        )
    }
}

impl Field for RestartMode {
    open spec fn value_spec(&self) -> Seq<char> {
        match *self {
            RestartMode::FromScratch => "from_scratch"@,
            RestartMode::Restart => "restart"@,
        }
    }

    fn value(&self) -> (s: String) {
        String::from_str(
            match self {
                RestartMode::FromScratch => "from_scratch",
                RestartMode::Restart => "restart",
            },
        )
    }
}

impl Field for DiskIO {
    open spec fn value_spec(&self) -> Seq<char> {
        match *self {
            DiskIO::Low => "low"@,
            DiskIO::Medium => "medium"@,
            DiskIO::High => "high"@,
            DiskIO::NoDiskIO => "none"@,
        }
    }

    fn value(&self) -> (s: String) {
        String::from_str(
            match self {
                DiskIO::Low => "low",
                DiskIO::Medium => "medium",
                DiskIO::High => "high",
                DiskIO::NoDiskIO => "none",
            },
        )
    }
}

impl Field for LatticeDirection {
    open spec fn value_spec(&self) -> Seq<char> {
        match *self {
            LatticeDirection::D1 => "1"@,
            LatticeDirection::D2 => "2"@,
            LatticeDirection::D3 => "3"@,
        }
    }

    fn value(&self) -> (s: String) {
        String::from_str(
            match self {
                LatticeDirection::D1 => "1",
                LatticeDirection::D2 => "2",
                LatticeDirection::D3 => "3",
            },
        )
    }
}

impl Field for Ibrav {
    open spec fn value_spec(&self) -> Seq<char> {
        match *self {
            Ibrav::Free(_) => "0"@,
        }
    }

    fn value(&self) -> (s: String) {
        String::from_str(
            match self {
                Ibrav::Free(_) => "0",
            },
        )
    }
}

impl Field for Occupations {
    open spec fn value_spec(&self) -> Seq<char> {
        match *self {
            Occupations::Smearing(_, _) => "smearing"@,
            Occupations::Tetrahedra => "tetrahedra"@,
            Occupations::TetrahedraLin => "tetrahedra_lin"@,
            Occupations::TetrahedraOpt => "tetrahedra_opt"@,
            Occupations::Fixed => "fixed"@,
        }
    }

    fn value(&self) -> (s: String) {
        String::from_str(
            match self {
                Occupations::Smearing(_, _) => "smearing",
                Occupations::Tetrahedra => "tetrahedra",
                Occupations::TetrahedraLin => "tetrahedra_lin",
                Occupations::TetrahedraOpt => "tetrahedra_opt",
                Occupations::Fixed => "fixed",
            },
        )
    }
}

impl Field for StartingWfc {
    open spec fn value_spec(&self) -> Seq<char> {
        match *self {
            StartingWfc::Atomic => "atomic"@,
            StartingWfc::AtomicPlusRandom => "atomic+random"@,
            StartingWfc::Random => "random"@,
            StartingWfc::File => "file"@,
        }
    }

    fn value(&self) -> (s: String) {
        String::from_str(
            match self {
                StartingWfc::Atomic => "atomic",
                StartingWfc::AtomicPlusRandom => "atomic+random",
                StartingWfc::Random => "random",
                StartingWfc::File => "file",
            },
        )
    }
}

impl Field for Diagonalization {
    open spec fn value_spec(&self) -> Seq<char> {
        match *self {
            Diagonalization::David => "david"@,
            Diagonalization::Cg => "cg"@,
        }
    }

    fn value(&self) -> (s: String) {
        String::from_str(
            match self {
                Diagonalization::David => "david",
                Diagonalization::Cg => "cg",
            },
        )
    }
}

impl Field for LatticeUnits {
    open spec fn value_spec(&self) -> Seq<char> {
        match *self {
            LatticeUnits::Bohr => "bohr"@,
            LatticeUnits::Angstrom => "angstrom"@,
            LatticeUnits::Alat => "alat"@,
        }
    }

    fn value(&self) -> (s: String) {
        String::from_str(
            match self {
                LatticeUnits::Bohr => "bohr",
                LatticeUnits::Angstrom => "angstrom",
                LatticeUnits::Alat => "alat",
            },
        )
    }
}

impl Field for PositionCoordinateType {
    open spec fn value_spec(&self) -> Seq<char> {
        match *self {
            PositionCoordinateType::AlatCartesian => "alat"@,
            PositionCoordinateType::BohrCartesian => "bohr"@,
            PositionCoordinateType::AngstromCartesian => "angstrom"@,
            PositionCoordinateType::Crystal => "crystal"@,
            PositionCoordinateType::CrystalSG => "crystal_sg"@,
        }
    }

    fn value(&self) -> (s: String) {
        String::from_str(
            match self {
                PositionCoordinateType::AlatCartesian => "alat",
                PositionCoordinateType::BohrCartesian => "bohr",
                PositionCoordinateType::AngstromCartesian => "angstrom",
                PositionCoordinateType::Crystal => "crystal",
                PositionCoordinateType::CrystalSG => "crystal_sg",
            },
        )
    }
}

impl Field for KPoints {
    open spec fn value_spec(&self) -> Seq<char> {
        match *self {
            KPoints::Crystal(_) => "crystal"@,
            KPoints::CrystalUniform(_) => "crystal"@,
            KPoints::Automatic { .. } => "automatic"@,
            KPoints::CrystalBands { .. } => "crystal_b"@,
        }
    }

    fn value(&self) -> (s: String) {
        String::from_str(
            match self {
                KPoints::Crystal(_) => "crystal",
                KPoints::CrystalUniform(_) => "crystal",
                KPoints::Automatic { .. } => "automatic",
                KPoints::CrystalBands { .. } => "crystal_b",
            },
        )
    }
}

/// The namelist line that sets `name` to the quoted text `value`.
pub open spec fn quoted_line(name: Seq<char>, value: Seq<char>) -> Seq<char> {
    "    "@ + name + "='"@ + value + "',"@
}

/// The namelist line that sets `name` to the bare text `value`.
pub open spec fn bare_line(name: Seq<char>, value: Seq<char>) -> Seq<char> {
    "    "@ + name + "="@ + value + ","@
}

fn quoted(name: &str, value: &str) -> (s: String)
    ensures
        s@ == quoted_line(name@, value@),
{
    let mut s = wrap("    ", name, "='");
    s.append(value);
    s.append("',");
    s
}

fn bare(name: &str, value: &str) -> (s: String)
    ensures
        s@ == bare_line(name@, value@),
{
    let mut s = wrap("    ", name, "=");
    s.append(value);
    s.append(",");
    s
}

/// The path error that stops the rendering of the `control` namelist, if
/// there is one: `pseudo_dir` is looked at before `out_dir`.
pub open spec fn control_error(input: &Input) -> Option<Error> {
    let pseudo_dir_fails = match input.control.pseudo_dir {
        Some(p) => !valid_utf8(p@),
        None => false,
    };
    let out_dir_fails = match input.control.out_dir {
        Some(p) => !valid_utf8(p@),
        None => false,
    };
    if pseudo_dir_fails {
        Some(Error::PseudoDir)
    } else if out_dir_fails {
        Some(Error::OutDir)
    } else {
        None
    }
}

/// The lines so far, and behind them the quoted field `name` where `value`
/// is present.
pub open spec fn with_quoted(lines: Seq<Seq<char>>, name: Seq<char>, value: Option<Seq<char>>) -> Seq<
    Seq<char>,
> {
    match value {
        Some(v) => lines.push(quoted_line(name, v)),
        None => lines,
    }
}

/// The value of an optional field, where it is set.
pub open spec fn value_of<F: Field>(field: Option<F>) -> Option<Seq<char>> {
    match field {
        Some(f) => Some(f.value_spec()),
        None => None,
    }
}

/// The text of an optional path, where it is set.
pub open spec fn path_of(path: Option<Vec<u8>>) -> Option<Seq<char>> {
    match path {
        Some(p) => Some(decode_utf8(p@)),
        None => None,
    }
}

/// The text of an optional string, where it is set.
pub open spec fn text_of(text: Option<String>) -> Option<Seq<char>> {
    match text {
        Some(t) => Some(t@),
        None => None,
    }
}

/// The lines of the `control` namelist, for an input whose paths are valid
/// UTF-8.
pub open spec fn control_lines(input: &Input) -> Seq<Seq<char>> {
    let control = input.control;
    let l = seq![" &control"@].push(quoted_line("calculation"@, input.calculation.value_spec()));
    let l = with_quoted(l, "restart_mode"@, value_of(control.restart_mode));
    let l = with_quoted(l, "disk_io"@, value_of(control.disk_io));
    let l = with_bool_field(l, "wf_collect"@, control.wf_collect);
    let l = with_quoted(l, "pseudo_dir"@, path_of(control.pseudo_dir));
    let l = with_quoted(l, "out_dir"@, path_of(control.out_dir));
    let l = match input.efield {
        Some(Efield::TeField { dipfield, .. }) => with_bool_field(
            with_bool_field(l, "tefield"@, Some(true)),
            "dipfield"@,
            Some(dipfield),
        ),
        None => l,
    };
    let l = with_quoted(l, "prefix"@, text_of(control.prefix));
    l.push(" /"@)
}

/// Renders the `control` namelist. Fails where a path is not valid UTF-8, with
/// the error of the first such path.
pub fn make_control(input: &Input) -> (r: Result<String, Error>)
    ensures
        match r {
            Ok(s) => control_error(input) is None && s@ == join(control_lines(input), "\n"@),
            Err(e) => control_error(input) == Some(e),
        },
{
    let mut lines = first_line(" &control");
    let calculation = input.calculation.value();
    push_line(&mut lines, quoted("calculation", calculation.as_str()));

    let control = &input.control;

    if let Some(restart_mode) = &control.restart_mode {
        let v = restart_mode.value();
        push_line(&mut lines, quoted("restart_mode", v.as_str()));
    }
    if let Some(disk_io) = &control.disk_io {
        let v = disk_io.value();
        push_line(&mut lines, quoted("disk_io", v.as_str()));
    }
    push_bool_field(&mut lines, "wf_collect", control.wf_collect);

    if let Some(pseudo_dir) = &control.pseudo_dir {
        match utf8_text(pseudo_dir) {
            Some(path) => {
                push_line(&mut lines, quoted("pseudo_dir", path));
            },
            None => {
                return Err(Error::PseudoDir);
            },
        }
    }
    if let Some(out_dir) = &control.out_dir {
        match utf8_text(out_dir) {
            Some(path) => {
                push_line(&mut lines, quoted("out_dir", path));
            },
            None => {
                return Err(Error::OutDir);
            },
        }
    }
    if let Some(Efield::TeField { dipfield, .. }) = &input.efield {
        push_bool_field(&mut lines, "tefield", Some(true));
        push_bool_field(&mut lines, "dipfield", Some(*dipfield));
    }
    if let Some(prefix) = &control.prefix {
        push_line(&mut lines, quoted("prefix", prefix.as_str()));
    }
    push_line(&mut lines, String::from_str(" /"));
    Ok(join_lines(&lines, "\n"))
}

/// The lines that tell the spin representation, behind the lines so far.
pub open spec fn with_spin(lines: Seq<Seq<char>>, spin_type: Option<SpinType>) -> Seq<Seq<char>> {
    match spin_type {
        Some(SpinType::NonPolarized) => lines.push("    nspin=1,"@),
        Some(SpinType::CollinearPolarized) => lines.push("    nspin=2,"@),
        Some(SpinType::Noncollinear { spin_orbit }) => with_bool_field(
            lines.push("    noncolin=.true.,"@),
            "lspinorb"@,
            Some(spin_orbit),
        ),
        None => lines,
    }
}

/// The lines of the electric field in the `system` namelist, behind the lines
/// so far: the direction, the two positions in positional notation, and the
/// amplitude in exponent notation.
pub open spec fn with_field_shape(lines: Seq<Seq<char>>, efield: Option<Efield>) -> Seq<Seq<char>> {
    match efield {
        Some(Efield::TeField { edir, emaxpos, eopreg, eamp, .. }) => lines.push(
            bare_line("edir"@, edir.value_spec()),
        ).push(bare_line("emaxpos"@, emaxpos.plain@)).push(bare_line("eopreg"@, eopreg.plain@)).push(
            bare_line("eamp"@, eamp.sci@),
        ),
        None => lines,
    }
}

/// The lines of the `system` namelist. `nat` and `ntyp` are the lengths of the
/// coordinate list and of the species list.
pub open spec fn system_lines(input: &Input) -> Seq<Seq<char>> {
    let system = input.system;
    let l = seq![" &system"@].push(bare_line("ibrav"@, system.ibrav.value_spec())).push(
        bare_line("celldm(1)"@, system.alat.plain@),
    ).push(bare_line("nat"@, decimal(input.atomic_positions.coordinates@.len()))).push(
        bare_line("ntyp"@, decimal(input.species@.len())),
    ).push(bare_line("ecutwfc"@, system.ecutwfc.plain@)).push(
        bare_line("ecutrho"@, system.ecutrho.plain@),
    ).push(quoted_line("occupations"@, system.occupations.value_spec()));
    let l = with_spin(l, system.spin_type);
    let l = with_field_shape(l, input.efield);
    l.push(" /"@)
}

/// Renders the `system` namelist.
pub fn make_system(input: &Input) -> (s: String)
    ensures
        s@ == join(system_lines(input), "\n"@),
{
    let mut lines = first_line(" &system");
    let system = &input.system;

    let ibrav = system.ibrav.value();
    push_line(&mut lines, bare("ibrav", ibrav.as_str()));
    push_line(&mut lines, bare("celldm(1)", system.alat.plain.as_str()));

    let n_atoms = count_string(input.atomic_positions.coordinates.len());
    push_line(&mut lines, bare("nat", n_atoms.as_str()));

    let n_species = count_string(input.species.len());
    push_line(&mut lines, bare("ntyp", n_species.as_str()));

    push_line(&mut lines, bare("ecutwfc", system.ecutwfc.plain.as_str()));
    push_line(&mut lines, bare("ecutrho", system.ecutrho.plain.as_str()));

    let occupations = system.occupations.value();
    push_line(&mut lines, quoted("occupations", occupations.as_str()));

    if let Some(spin_type) = &system.spin_type {
        match spin_type {
            SpinType::NonPolarized => {
                push_line(&mut lines, String::from_str("    nspin=1,"));
            },
            SpinType::CollinearPolarized => {
                push_line(&mut lines, String::from_str("    nspin=2,"));
            },
            SpinType::Noncollinear { spin_orbit } => {
                push_line(&mut lines, String::from_str("    noncolin=.true.,"));
                push_bool_field(&mut lines, "lspinorb", Some(*spin_orbit));
            },
        }
    }
    if let Some(Efield::TeField { edir, emaxpos, eopreg, eamp, .. }) = &input.efield {
        let direction = edir.value();
        push_line(&mut lines, bare("edir", direction.as_str()));
        push_line(&mut lines, bare("emaxpos", emaxpos.plain.as_str()));
        push_line(&mut lines, bare("eopreg", eopreg.plain.as_str()));
        push_line(&mut lines, bare("eamp", eamp.sci.as_str()));
    }
    push_line(&mut lines, String::from_str(" /"));
    join_lines(&lines, "\n")
}

/// The line of the convergence threshold, which is written in exponent
/// notation: `conv_thr` for a self-consistent run, `diago_thr_init` for the
/// others.
pub open spec fn threshold_line(calculation: Calculation) -> Seq<char> {
    match calculation {
        Calculation::Scf { conv_thr } => bare_line("conv_thr"@, conv_thr.sci@),
        Calculation::Nscf { diago_thr_init, .. } => bare_line(
            "diago_thr_init"@,
            diago_thr_init.sci@,
        ),
        Calculation::Bands { diago_thr_init, .. } => bare_line(
            "diago_thr_init"@,
            diago_thr_init.sci@,
        ),
    }
}

/// The lines of the `electrons` namelist.
pub open spec fn electrons_lines(input: &Input) -> Seq<Seq<char>> {
    let electrons = input.electrons;
    let l = seq![" &electrons"@];
    let l = with_quoted(l, "startingwfc"@, value_of(electrons.startingwfc));
    let l = with_quoted(l, "diagonalization"@, value_of(electrons.diagonalization));
    l.push(threshold_line(input.calculation)).push(" /"@)
}

/// Renders the `electrons` namelist.
pub fn make_electrons(input: &Input) -> (s: String)
    ensures
        s@ == join(electrons_lines(input), "\n"@),
{
    let mut lines = first_line(" &electrons");
    let electrons = &input.electrons;

    if let Some(startingwfc) = &electrons.startingwfc {
        let v = startingwfc.value();
        push_line(&mut lines, quoted("startingwfc", v.as_str()));
    }
    if let Some(diagonalization) = &electrons.diagonalization {
        let v = diagonalization.value();
        push_line(&mut lines, quoted("diagonalization", v.as_str()));
    }
    match &input.calculation {
        Calculation::Scf { conv_thr } => {
            push_line(&mut lines, bare("conv_thr", conv_thr.sci.as_str()));
        },
        Calculation::Nscf { diago_thr_init, .. } => {
            push_line(&mut lines, bare("diago_thr_init", diago_thr_init.sci.as_str()));
        },
        Calculation::Bands { diago_thr_init, .. } => {
            push_line(&mut lines, bare("diago_thr_init", diago_thr_init.sci.as_str()));
        },
    }
    push_line(&mut lines, String::from_str(" /"));
    join_lines(&lines, "\n")
}

/// The record of one species: label, mass and pseudopotential file.
pub open spec fn species_line(species: Species) -> Seq<char> {
    " "@ + spaced3(species.label@, species.mass.plain@, species.pseudopotential_filename@)
}

/// The lines of the `ATOMIC_SPECIES` card: its keyword, then one record for
/// each species.
pub open spec fn species_lines(input: &Input) -> Seq<Seq<char>> {
    seq!["ATOMIC_SPECIES"@] + input.species@.map_values(|s: Species| species_line(s))
}

/// Renders the `ATOMIC_SPECIES` card.
pub fn make_species(input: &Input) -> (s: String)
    ensures
        s@ == join(species_lines(input), "\n"@),
{
    let mut lines = first_line("ATOMIC_SPECIES");
    let n = input.species.len();
    let mut i: usize = 0;
    while i < n
        invariant
            n == input.species@.len(),
            i <= n,
            views(lines@) == seq!["ATOMIC_SPECIES"@] + input.species@.take(i as int).map_values(
                |s: Species| species_line(s),
            ),
        decreases n - i,
    {
        let species = &input.species[i];
        let record = spaced3_string(
            species.label.as_str(),
            species.mass.plain.as_str(),
            species.pseudopotential_filename.as_str(),
        );
        push_line(&mut lines, prefixed(" ", record.as_str()));
        assert(views(lines@) =~= seq!["ATOMIC_SPECIES"@] + input.species@.take(
            i + 1,
        ).map_values(|s: Species| species_line(s)));
        i = i + 1;
    }
    assert(input.species@.take(n as int) =~= input.species@);
    join_lines(&lines, "\n")
}

/// One lattice vector as a record of the `CELL_PARAMETERS` card.
pub open spec fn cell_row(v: [Number; 3]) -> Seq<char> {
    " "@ + spaced3(v[0].plain@, v[1].plain@, v[2].plain@)
}

/// The lines of the `CELL_PARAMETERS` card, where the lattice calls for one: its
/// keyword with the units, then the three lattice vectors.
pub open spec fn cell_lines(input: &Input) -> Option<Seq<Seq<char>>> {
    match input.system.ibrav {
        Ibrav::Free(cell) => Some(
            seq!["CELL_PARAMETERS "@ + cell.units.value_spec()].push(cell_row(cell.cell[0])).push(
                cell_row(cell.cell[1]),
            ).push(cell_row(cell.cell[2])),
        ),
    }
}

fn make_cell_row(v: &[Number; 3]) -> (s: String)
    ensures
        s@ == cell_row(*v),
{
    let record = spaced3_string(v[0].plain.as_str(), v[1].plain.as_str(), v[2].plain.as_str());
    prefixed(" ", record.as_str())
}

/// Renders the `CELL_PARAMETERS` card, where the lattice calls for one.
pub fn make_cell(input: &Input) -> (r: Option<String>)
    ensures
        match r {
            Some(s) => cell_lines(input) is Some && s@ == join(cell_lines(input).unwrap(), "\n"@),
            None => cell_lines(input) is None,
        },
{
    match &input.system.ibrav {
        Ibrav::Free(cell) => {
            let units = cell.units.value();
            let mut lines: Vec<String> = Vec::new();
            push_line(&mut lines, prefixed("CELL_PARAMETERS ", units.as_str()));
            push_line(&mut lines, make_cell_row(&cell.cell[0]));
            push_line(&mut lines, make_cell_row(&cell.cell[1]));
            push_line(&mut lines, make_cell_row(&cell.cell[2]));
            assert(views(lines@) =~= cell_lines(input).unwrap());
            Some(join_lines(&lines, "\n"))
        },
    }
}

/// The digit for a flag: `1` where it is set, `0` where it is not.
pub open spec fn bit(b: bool) -> Seq<char> {
    if b {
        "1"@
    } else {
        "0"@
    }
}

/// Three flags as three digits with a blank between each two.
pub open spec fn bool_list(xs: [bool; 3]) -> Seq<char> {
    spaced3(bit(xs[0]), bit(xs[1]), bit(xs[2]))
}

fn bit_str(b: bool) -> (s: &'static str)
    ensures
        s@ == bit(b),
{
    if b {
        "1"
    } else {
        "0"
    }
}

/// Renders three flags as `0` or `1` each, with a blank between each two.
pub fn render_bool_list(xs: [bool; 3]) -> (s: String)
    ensures
        s@ == bool_list(xs),
{
    spaced3_string(bit_str(xs[0]), bit_str(xs[1]), bit_str(xs[2]))
}

/// The record of one atom: its species and position, and its three
/// constraint flags where they are given.
pub open spec fn position_line(coord: AtomCoordinate) -> Seq<char> {
    let head = " "@ + spaced4(
        coord.species@,
        coord.r[0].plain@,
        coord.r[1].plain@,
        coord.r[2].plain@,
    );
    match coord.if_pos {
        Some(if_pos) => head + " "@ + bool_list(if_pos),
        None => head,
    }
}

/// The lines of the `ATOMIC_POSITIONS` card: its keyword with the kind of
/// coordinates, then one record for each atom.
pub open spec fn positions_lines(input: &Input) -> Seq<Seq<char>> {
    let positions = input.atomic_positions;
    seq!["ATOMIC_POSITIONS "@ + positions.coordinate_type.value_spec()]
        + positions.coordinates@.map_values(|c: AtomCoordinate| position_line(c))
}

/// Renders the `ATOMIC_POSITIONS` card.
pub fn make_positions(input: &Input) -> (s: String)
    ensures
        s@ == join(positions_lines(input), "\n"@),
{
    let positions = &input.atomic_positions;
    let kind = positions.coordinate_type.value();
    let mut lines: Vec<String> = Vec::new();
    push_line(&mut lines, prefixed("ATOMIC_POSITIONS ", kind.as_str()));
    let ghost head = seq!["ATOMIC_POSITIONS "@ + positions.coordinate_type.value_spec()];
    assert(views(lines@) =~= head);

    let n = positions.coordinates.len();
    let mut i: usize = 0;
    while i < n
        invariant
            n == positions.coordinates@.len(),
            i <= n,
            views(lines@) == head + positions.coordinates@.take(i as int).map_values(
                |c: AtomCoordinate| position_line(c),
            ),
        decreases n - i,
    {
        let coord = &positions.coordinates[i];
        let record = spaced4_string(
            coord.species.as_str(),
            coord.r[0].plain.as_str(),
            coord.r[1].plain.as_str(),
            coord.r[2].plain.as_str(),
        );
        let mut line = prefixed(" ", record.as_str());
        if let Some(if_pos) = coord.if_pos {
            let flags = render_bool_list(if_pos);
            line.append(" ");
            line.append(flags.as_str());
        }
        push_line(&mut lines, line);
        assert(views(lines@) =~= head + positions.coordinates@.take(i + 1).map_values(
            |c: AtomCoordinate| position_line(c),
        ));
        i = i + 1;
    }
    assert(positions.coordinates@.take(n as int) =~= positions.coordinates@);
    join_lines(&lines, "\n")
}

/// The record of a weighted k-point: three coordinates and the weight.
pub open spec fn weighted_point_line(kw: [Number; 4]) -> Seq<char> {
    spaced4(kw[0].plain@, kw[1].plain@, kw[2].plain@, kw[3].plain@)
}

/// The record of a point of a uniform grid, given by its index triple: the
/// coordinate that each axis has at the index, and the common weight.
pub open spec fn grid_point_line(g: UniformGrid, p: (nat, nat, nat)) -> Seq<char> {
    spaced4(
        g.axes[0]@[p.0 as int].plain@,
        g.axes[1]@[p.1 as int].plain@,
        g.axes[2]@[p.2 as int].plain@,
        g.weight.plain@,
    )
}

/// The index triples of the points of a uniform grid, in the order in which
/// they are written.
pub open spec fn grid_points(g: UniformGrid) -> Seq<(nat, nat, nat)> {
    grid(g.axes[0]@.len(), g.axes[1]@.len(), g.axes[2]@.len())
}

/// The record of the end of a panel of a band path: three coordinates and
/// the number of points on a panel.
pub open spec fn panel_line(k: [Number; 3], nk_per_panel: u64) -> Seq<char> {
    spaced4(k[0].plain@, k[1].plain@, k[2].plain@, decimal(nk_per_panel as nat))
}

/// The shift flags of an automatic grid; no flags stand for no shift.
pub open spec fn shift_of(sk: Option<[bool; 3]>) -> Seq<char> {
    match sk {
        Some(sk) => bool_list(sk),
        None => spaced3("0"@, "0"@, "0"@),
    }
}

/// The records of the `K_POINTS` card, which follow its keyword line.
///
/// An explicit list gives its length and one record per point. A uniform grid
/// is written like an explicit list of all its points. An automatic grid is
/// one record: the three grid sizes and the three shift flags. A band path
/// gives the number of panel ends and one record per end.
pub open spec fn k_point_records(k_points: KPoints) -> Seq<Seq<char>> {
    match k_points {
        KPoints::Crystal(list) => seq![decimal(list@.len())] + list@.map_values(
            |kw: [Number; 4]| weighted_point_line(kw),
        ),
        KPoints::CrystalUniform(g) => seq![decimal(grid_points(g).len())] + grid_points(
            g,
        ).map_values(|p: (nat, nat, nat)| grid_point_line(g, p)),
        KPoints::Automatic { nk, sk } => seq![
            spaced4(
                decimal(nk[0] as nat),
                decimal(nk[1] as nat),
                decimal(nk[2] as nat),
                shift_of(sk),
            ),
        ],
        KPoints::CrystalBands { nk_per_panel, panel_bounds } => seq![
            decimal(panel_bounds@.len()),
        ] + panel_bounds@.map_values(|k: [Number; 3]| panel_line(k, nk_per_panel)),
    }
}

/// The lines of the `K_POINTS` card: its keyword with the kind of list, then
/// its records.
pub open spec fn k_points_lines(input: &Input) -> Seq<Seq<char>> {
    seq!["K_POINTS "@ + input.k_points.value_spec()] + k_point_records(input.k_points)
}

/// Renders the `K_POINTS` card.
pub fn make_k_points(input: &Input) -> (s: String)
    ensures
        s@ == join(k_points_lines(input), "\n"@),
{
    let kind = input.k_points.value();
    let mut lines: Vec<String> = Vec::new();
    push_line(&mut lines, prefixed("K_POINTS ", kind.as_str()));
    let ghost head = seq!["K_POINTS "@ + input.k_points.value_spec()];
    assert(views(lines@) =~= head);

    match &input.k_points {
        KPoints::Crystal(list) => {
            let n = list.len();
            push_line(&mut lines, count_string(n));
            let ghost head = head.push(decimal(n as nat));
            assert(views(lines@) =~= head + list@.take(0).map_values(
                |kw: [Number; 4]| weighted_point_line(kw),
            ));
            let mut i: usize = 0;
            while i < n
                invariant
                    n == list@.len(),
                    i <= n,
                    views(lines@) == head + list@.take(i as int).map_values(
                        |kw: [Number; 4]| weighted_point_line(kw),
                    ),
                decreases n - i,
            {
                let kw = &list[i];
                push_line(
                    &mut lines,
                    spaced4_string(
                        kw[0].plain.as_str(),
                        kw[1].plain.as_str(),
                        kw[2].plain.as_str(),
                        kw[3].plain.as_str(),
                    ),
                );
                assert(views(lines@) =~= head + list@.take(i + 1).map_values(
                    |kw: [Number; 4]| weighted_point_line(kw),
                ));
                i = i + 1;
            }
            assert(list@.take(n as int) =~= list@);
            assert(views(lines@) =~= k_points_lines(input));
        },
        KPoints::CrystalUniform(g) => {
            let nk: [u64; 3] = [
                g.axes[0].len() as u64,
                g.axes[1].len() as u64,
                g.axes[2].len() as u64,
            ];
            let points = generate_uniform_kpoints(nk);
            let n = points.len();
            proof {
                lemma_grid_in_range(g.axes[0]@.len(), g.axes[1]@.len(), g.axes[2]@.len());
            }
            push_line(&mut lines, count_string(n));
            let ghost head = head.push(decimal(n as nat));
            assert(views(lines@) =~= head + grid_points(*g).take(0).map_values(
                |p: (nat, nat, nat)| grid_point_line(*g, p),
            ));
            let mut i: usize = 0;
            while i < n
                invariant
                    n == points@.len(),
                    i <= n,
                    triples(points@) == grid_points(*g),
                    g.axes[0]@.len() <= usize::MAX,
                    g.axes[1]@.len() <= usize::MAX,
                    g.axes[2]@.len() <= usize::MAX,
                    forall|j: int|
                        0 <= j < grid_points(*g).len() ==> {
                            let p = #[trigger] grid_points(*g)[j];
                            p.0 < g.axes[0]@.len() && p.1 < g.axes[1]@.len() && p.2
                                < g.axes[2]@.len()
                        },
                    views(lines@) == head + grid_points(*g).take(i as int).map_values(
                        |p: (nat, nat, nat)| grid_point_line(*g, p),
                    ),
                decreases n - i,
            {
                let p = &points[i];
                assert(grid_points(*g)[i as int] == triples(points@)[i as int]);
                let k0 = &g.axes[0][p[0] as usize];
                let k1 = &g.axes[1][p[1] as usize];
                let k2 = &g.axes[2][p[2] as usize];
                push_line(
                    &mut lines,
                    spaced4_string(
                        k0.plain.as_str(),
                        k1.plain.as_str(),
                        k2.plain.as_str(),
                        g.weight.plain.as_str(),
                    ),
                );
                assert(views(lines@) =~= head + grid_points(*g).take(i + 1).map_values(
                    |p: (nat, nat, nat)| grid_point_line(*g, p),
                ));
                i = i + 1;
            }
            assert(grid_points(*g).take(n as int) =~= grid_points(*g));
            assert(views(lines@) =~= k_points_lines(input));
        },
        KPoints::Automatic { nk, sk } => {
            let shift = match sk {
                Some(sk) => render_bool_list(*sk),
                None => render_bool_list([false, false, false]),
            };
            let n0 = decimal_string(nk[0]);
            let n1 = decimal_string(nk[1]);
            let n2 = decimal_string(nk[2]);
            push_line(
                &mut lines,
                spaced4_string(n0.as_str(), n1.as_str(), n2.as_str(), shift.as_str()),
            );
            assert(views(lines@) =~= k_points_lines(input));
        },
        KPoints::CrystalBands { nk_per_panel, panel_bounds } => {
            let n = panel_bounds.len();
            let per_panel = decimal_string(*nk_per_panel);
            push_line(&mut lines, count_string(n));
            let ghost head = head.push(decimal(n as nat));
            assert(views(lines@) =~= head + panel_bounds@.take(0).map_values(
                |k: [Number; 3]| panel_line(k, *nk_per_panel),
            ));
            let mut i: usize = 0;
            while i < n
                invariant
                    n == panel_bounds@.len(),
                    i <= n,
                    per_panel@ == decimal(*nk_per_panel as nat),
                    views(lines@) == head + panel_bounds@.take(i as int).map_values(
                        |k: [Number; 3]| panel_line(k, *nk_per_panel),
                    ),
                decreases n - i,
            {
                let k = &panel_bounds[i];
                push_line(
                    &mut lines,
                    spaced4_string(
                        k[0].plain.as_str(),
                        k[1].plain.as_str(),
                        k[2].plain.as_str(),
                        per_panel.as_str(),
                    ),
                );
                assert(views(lines@) =~= head + panel_bounds@.take(i + 1).map_values(
                    |k: [Number; 3]| panel_line(k, *nk_per_panel),
                ));
                i = i + 1;
            }
            assert(panel_bounds@.take(n as int) =~= panel_bounds@);
            assert(views(lines@) =~= k_points_lines(input));
        },
    }
    join_lines(&lines, "\n")
}

/// The sections of the file, each as one text, in the order in which they are
/// written: control, system, electrons, species, the cell where the lattice
/// calls for it, positions, k-points.
pub open spec fn sections(input: &Input) -> Seq<Seq<char>> {
    let s = seq![join(control_lines(input), "\n"@)].push(join(system_lines(input), "\n"@)).push(
        join(electrons_lines(input), "\n"@),
    ).push(join(species_lines(input), "\n"@));
    let s = match cell_lines(input) {
        Some(cell) => s.push(join(cell, "\n"@)),
        None => s,
    };
    s.push(join(positions_lines(input), "\n"@)).push(join(k_points_lines(input), "\n"@))
}

/// The text of the input file, for an input that passes the checks and whose
/// paths are valid UTF-8.
pub open spec fn input_text(input: &Input) -> Seq<char> {
    join(sections(input), "\n"@)
}

/// Whether `r` is what rendering `input` gives.
///
/// An input that violates a rule of `validate` gives the list of all its
/// violations, and no text. Otherwise an input with a path that is not valid
/// UTF-8 gives the error of the first such path. Every other input gives
/// its text.
pub open spec fn rendered(input: &Input, r: Result<String, Error>) -> bool {
    match r {
        Ok(s) => violations(input).len() == 0 && control_error(input) is None && s@ == input_text(
            input,
        ),
        Err(Error::Input(list)) => violations(input).len() > 0 && list.errs@ == violations(input),
        Err(e) => violations(input).len() == 0 && control_error(input) == Some(e),
    }
}

/// Every section opens with its own keyword line, and the two counts of the
/// `system` namelist are the lengths of the coordinate list and of the species
/// list. With the free lattice, the only one there is, the file has seven
/// sections.
pub proof fn lemma_sections_open_with_their_keyword(input: &Input)
    ensures
        control_lines(input)[0] == " &control"@,
        system_lines(input)[0] == " &system"@,
        system_lines(input)[3] == bare_line(
            "nat"@,
            decimal(input.atomic_positions.coordinates@.len()),
        ),
        system_lines(input)[4] == bare_line("ntyp"@, decimal(input.species@.len())),
        electrons_lines(input)[0] == " &electrons"@,
        species_lines(input)[0] == "ATOMIC_SPECIES"@,
        species_lines(input).len() == 1 + input.species@.len(),
        positions_lines(input).len() == 1 + input.atomic_positions.coordinates@.len(),
        cell_lines(input) is Some,
        cell_lines(input).unwrap().len() == 4,
        sections(input).len() == 7,
{
}

/// The input with its electric field taken away.
pub open spec fn without_field(input: &Input) -> Input {
    Input { efield: None, ..*input }
}

/// The lines of an electric field come together or not at all: a field adds
/// two lines to the `control` namelist and four to the `system` namelist, and
/// an input without a field has none of them.
pub proof fn lemma_field_lines_come_together(input: &Input)
    ensures
        input.efield is Some ==> control_lines(input).len() == control_lines(
            &without_field(input),
        ).len() + 2 && system_lines(input).len() == system_lines(&without_field(input)).len() + 4,
        input.efield is None ==> control_lines(input) == control_lines(&without_field(input))
            && system_lines(input) == system_lines(&without_field(input)),
{
}

/// Rendering has no hidden state: two results of rendering one input agree.
/// Both are the same text, or both are the same list of violations, or both
/// are the same path error.
pub proof fn lemma_rendering_is_repeatable(
    input: &Input,
    first: Result<String, Error>,
    second: Result<String, Error>,
)
    requires
        rendered(input, first),
        rendered(input, second),
    ensures
        match (first, second) {
            (Ok(a), Ok(b)) => a@ == b@,
            (Err(Error::Input(a)), Err(Error::Input(b))) => a.errs@ == b.errs@,
            (Err(a), Err(b)) => a == b,
            _ => false,
        },
{
}

/// An input whose density cutoff is not greater than zero is not
/// rendered: the result is no text, but the list of violations, which holds
/// the error of the density cutoff.
pub proof fn lemma_bad_density_cutoff_stops_rendering(input: &Input, r: Result<String, Error>)
    requires
        !input.system.ecutrho.positive(),
        rendered(input, r),
    ensures
        r matches Err(Error::Input(list)) && list.errs@.contains(
            crate::pw::input::Error::Ecutrho(input.system.ecutrho),
        ),
{
    lemma_density_cutoff_violates(input);
}

/// An input whose lattice constant is a NaN is not rendered: the result is no
/// text, but the list of violations, which begins with the error of the
/// lattice constant.
pub proof fn lemma_nan_stops_rendering(input: &Input, r: Result<String, Error>)
    requires
        input.system.alat.is_nan(),
        rendered(input, r),
    ensures
        r matches Err(Error::Input(list)) && list.errs@.len() > 0 && list.errs@[0]
            == crate::pw::input::Error::LatticeConstant(input.system.alat),
{
}

/// Renders the input file: checks the input with `validate`, then writes the
/// sections, one after the other, with a line break between each two.
pub fn make_input_file(input: &Input) -> (r: Result<String, Error>)
    ensures
        rendered(input, r),
{
    match validate(input) {
        Ok(_) => {},
        Err(list) => {
            return Err(Error::from(list));
        },
    }
    let control = match make_control(input) {
        Ok(control) => control,
        Err(e) => {
            return Err(e);
        },
    };
    let system = make_system(input);
    let electrons = make_electrons(input);
    let species = make_species(input);
    let cell = make_cell(input);
    let positions = make_positions(input);
    let k_points = make_k_points(input);

    let mut input_sections: Vec<String> = Vec::new();
    push_line(&mut input_sections, control);
    push_line(&mut input_sections, system);
    push_line(&mut input_sections, electrons);
    push_line(&mut input_sections, species);
    if let Some(cell) = cell {
        push_line(&mut input_sections, cell);
    }
    push_line(&mut input_sections, positions);
    push_line(&mut input_sections, k_points);
    assert(views(input_sections@) =~= sections(input));
    Ok(join_lines(&input_sections, "\n"))
}

} // verus!
