use qe::error::Message;
use qe::number::Number;
use qe::pw::input;
use qe::pw::input::Error;

fn num(x: f64) -> Number {
    Number::new(x.to_bits(), format!("{}", x), format!("{:e}", x))
}

fn row(x: f64, y: f64, z: f64) -> [Number; 3] {
    [num(x), num(y), num(z)]
}

fn base(calculation: input::Calculation) -> input::Input {
    input::Input {
        calculation,
        control: input::Control {
            restart_mode: None,
            disk_io: None,
            wf_collect: None,
            pseudo_dir: None,
            out_dir: None,
            prefix: None,
        },
        system: input::System {
            ibrav: input::Ibrav::Free(input::Cell {
                units: input::LatticeUnits::Bohr,
                cell: [row(1.0, 0.0, 0.0), row(0.0, 1.0, 0.0), row(0.0, 0.0, 1.0)],
            }),
            alat: num(3.0),
            ecutwfc: num(60.0),
            ecutrho: num(240.0),
            occupations: input::Occupations::Fixed,
            spin_type: None,
        },
        efield: None,
        electrons: input::Electrons { startingwfc: None, diagonalization: None },
        species: vec![],
        atomic_positions: input::Positions {
            coordinate_type: input::PositionCoordinateType::Crystal,
            coordinates: vec![],
        },
        k_points: input::KPoints::Automatic { nk: [1, 1, 1], sk: None },
    }
}

fn species(label: &str, mass: f64) -> input::Species {
    input::Species {
        label: String::from(label),
        mass: num(mass),
        pseudopotential_filename: format!("{}.UPF", label),
    }
}

fn errors_of(input: &input::Input) -> Vec<Error> {
    match input::validate(input) {
        Ok(()) => vec![],
        Err(list) => {
            assert!(!list.errs.is_empty());
            list.errs
        }
    }
}

#[test]
fn positive_values_pass() {
    for calculation in [
        input::Calculation::Scf { conv_thr: num(1e-8) },
        input::Calculation::Nscf { diago_thr_init: num(1e-6), nbnd: None, nosym: None },
        input::Calculation::Bands { diago_thr_init: num(1e-6), nbnd: Some(8), nosym: Some(true) },
    ] {
        for (alat, ecutwfc, ecutrho) in
            [(3.0, 60.0, 240.0), (5e-324, 1e300, f64::INFINITY), (0.1, 0.2, 0.3)]
        {
            let mut input = base(calculation.clone());
            input.system.alat = num(alat);
            input.system.ecutwfc = num(ecutwfc);
            input.system.ecutrho = num(ecutrho);
            assert!(input::validate(&input).is_ok());
        }
    }
}

#[test]
fn lattice_constant_error_carries_the_value() {
    for bad in [0.0, -0.0, -3.0, -1e-300, -5e-324, f64::NEG_INFINITY] {
        let mut input = base(input::Calculation::Scf { conv_thr: num(1e-8) });
        input.system.alat = num(bad);
        let errs = errors_of(&input);
        assert_eq!(errs, vec![Error::LatticeConstant(num(bad))]);
        match &errs[0] {
            Error::LatticeConstant(x) => assert_eq!(x.bits, bad.to_bits()),
            other => panic!("unexpected error {:?}", other),
        }
    }
}

#[test]
fn lattice_constant_and_cutoff_give_two_errors_in_order() {
    let mut input = base(input::Calculation::Scf { conv_thr: num(1e-8) });
    input.system.alat = num(-1.0);
    input.system.ecutwfc = num(0.0);
    assert_eq!(errors_of(&input), vec![Error::LatticeConstant(num(-1.0)), Error::Ecutwfc(num(0.0))]);
}

#[test]
fn every_rule_is_reported_in_check_order() {
    let mut input = base(input::Calculation::Scf { conv_thr: num(0.0) });
    input.system.alat = num(-1.0);
    input.system.ecutwfc = num(-2.0);
    input.system.ecutrho = num(-3.0);
    input.system.occupations = input::Occupations::Smearing(input::Smearing::Gaussian, num(-4.0));
    input.species = vec![species("Fe", -5.0), species("O", 15.999), species("H", 0.0)];
    assert_eq!(
        errors_of(&input),
        vec![
            Error::LatticeConstant(num(-1.0)),
            Error::ConvThr(num(0.0)),
            Error::Ecutwfc(num(-2.0)),
            Error::Ecutrho(num(-3.0)),
            Error::Smearing(num(-4.0)),
            Error::Mass(String::from("Fe"), num(-5.0)),
            Error::Mass(String::from("H"), num(0.0)),
        ]
    );
}

#[test]
fn threshold_error_follows_the_calculation() {
    let input = base(input::Calculation::Nscf { diago_thr_init: num(-1e-6), nbnd: None, nosym: None });
    assert_eq!(errors_of(&input), vec![Error::DiagoThrInit(num(-1e-6))]);
    let input =
        base(input::Calculation::Bands { diago_thr_init: num(0.0), nbnd: None, nosym: None });
    assert_eq!(errors_of(&input), vec![Error::DiagoThrInit(num(0.0))]);
    let input = base(input::Calculation::Scf { conv_thr: num(-1.0) });
    assert_eq!(errors_of(&input), vec![Error::ConvThr(num(-1.0))]);
}

#[test]
fn smearing_width_is_checked_only_with_smearing() {
    let mut input = base(input::Calculation::Scf { conv_thr: num(1e-8) });
    input.system.occupations = input::Occupations::Smearing(input::Smearing::FermiDirac, num(0.0));
    assert_eq!(errors_of(&input), vec![Error::Smearing(num(0.0))]);
    input.system.occupations = input::Occupations::Smearing(input::Smearing::FermiDirac, num(0.01));
    assert!(input::validate(&input).is_ok());
    input.system.occupations = input::Occupations::TetrahedraOpt;
    assert!(input::validate(&input).is_ok());
}

#[test]
fn nan_lattice_constant_is_reported() {
    for nan in [f64::NAN, -f64::NAN, f64::from_bits(0x7ff0_0000_0000_0001)] {
        let mut input = base(input::Calculation::Scf { conv_thr: num(1e-8) });
        input.system.alat = num(nan);
        let errs = errors_of(&input);
        assert_eq!(errs, vec![Error::LatticeConstant(num(nan))]);
        match &errs[0] {
            Error::LatticeConstant(x) => assert!(f64::from_bits(x.bits).is_nan()),
            other => panic!("unexpected error {:?}", other),
        }
    }
}

#[test]
fn nan_is_reported_by_every_rule() {
    let nan = f64::NAN;
    let mut input = base(input::Calculation::Scf { conv_thr: num(nan) });
    input.system.alat = num(nan);
    input.system.ecutwfc = num(nan);
    input.system.ecutrho = num(nan);
    input.system.occupations = input::Occupations::Smearing(input::Smearing::Gaussian, num(nan));
    input.species = vec![species("Fe", 55.845), species("O", nan)];
    assert_eq!(
        errors_of(&input),
        vec![
            Error::LatticeConstant(num(nan)),
            Error::ConvThr(num(nan)),
            Error::Ecutwfc(num(nan)),
            Error::Ecutrho(num(nan)),
            Error::Smearing(num(nan)),
            Error::Mass(String::from("O"), num(nan)),
        ]
    );
    let input =
        base(input::Calculation::Nscf { diago_thr_init: num(-nan), nbnd: None, nosym: None });
    assert_eq!(errors_of(&input), vec![Error::DiagoThrInit(num(-nan))]);
}

#[test]
fn unchecked_properties_stay_unchecked() {
    let mut input = base(input::Calculation::Scf { conv_thr: num(1e-8) });
    input.system.ibrav = input::Ibrav::Free(input::Cell {
        units: input::LatticeUnits::Bohr,
        cell: [row(0.0, 0.0, 0.0), row(0.0, 0.0, 0.0), row(0.0, 0.0, 0.0)],
    });
    input.system.occupations = input::Occupations::Tetrahedra;
    input.k_points = input::KPoints::Crystal(vec![]);
    input.efield = Some(input::Efield::TeField {
        dipfield: true,
        edir: input::LatticeDirection::D1,
        emaxpos: num(7.0),
        eopreg: num(-2.0),
        eamp: num(-1.0),
    });
    input.atomic_positions.coordinates.push(input::AtomCoordinate {
        species: String::from("Xx"),
        r: row(0.0, 0.0, 0.0),
        if_pos: None,
    });
    assert!(input::validate(&input).is_ok());
}

#[test]
fn sign_test_agrees_with_the_comparison() {
    let values = [
        0.0,
        -0.0,
        1.0,
        -1.0,
        5e-324,
        -5e-324,
        f64::MIN_POSITIVE,
        -f64::MIN_POSITIVE,
        f64::MAX,
        f64::MIN,
        f64::INFINITY,
        f64::NEG_INFINITY,
        f64::NAN,
        -f64::NAN,
        f64::from_bits(0x7ff0_0000_0000_0001),
        f64::from_bits(0xfff0_0000_0000_0001),
        f64::from_bits(0xffff_ffff_ffff_ffff),
        f64::EPSILON,
        55.845,
    ];
    for x in values {
        assert_eq!(num(x).is_positive(), x > 0.0, "for {:?}", x);
    }
}

#[test]
fn number_clone_keeps_everything() {
    let x = num(-2.5);
    let y = x.clone();
    assert_eq!(x, y);
    assert_eq!(y.bits, (-2.5f64).to_bits());
    assert_eq!(y.plain, "-2.5");
    assert_eq!(y.sci, "-2.5e0");
}

#[test]
fn error_messages() {
    assert_eq!(
        Error::LatticeConstant(num(-3.0)).message(),
        "Lattice constant `alat` must be positive; got -3 instead."
    );
    assert_eq!(
        Error::ConvThr(num(0.0)).message(),
        "SCF convergence threshold `conv_thr` must be positive; got 0 instead."
    );
    assert_eq!(
        Error::DiagoThrInit(num(-0.5)).message(),
        "Diagonalization convergence threshold `diago_thr_init` must be positive; got -0.5 instead."
    );
    assert_eq!(
        Error::Ecutwfc(num(-60.0)).message(),
        "Wavefunction cutoff energy `ecutwfc` must be positive; got -60 instead."
    );
    assert_eq!(
        Error::Ecutrho(num(-240.0)).message(),
        "Charge density cutoff energy `ecutrho` must be positive; got -240 instead."
    );
    assert_eq!(
        Error::Smearing(num(-0.01)).message(),
        "Smearing value must be positive; got -0.01 instead."
    );
    assert_eq!(
        Error::Mass(String::from("Fe"), num(-55.845)).message(),
        "Atomic mass must be positive; for atom Fe got -55.845 instead."
    );
    assert_eq!(
        Error::Species(String::from("Xx")).message(),
        "Species Xx in coordinate list is not given in species list."
    );
}

#[test]
fn error_list_message_is_one_line_per_error() {
    let mut input = base(input::Calculation::Scf { conv_thr: num(1e-8) });
    input.system.alat = num(-1.0);
    input.system.ecutwfc = num(0.0);
    let list = input::validate(&input).unwrap_err();
    assert_eq!(
        list.message(),
        "Lattice constant `alat` must be positive; got -1 instead.\n\
         Wavefunction cutoff energy `ecutwfc` must be positive; got 0 instead."
    );
    let wrapped = qe::pw::serialize::Error::Input(list);
    assert!(wrapped.message().starts_with("Lattice constant"));
    assert_eq!(qe::pw::serialize::Error::PseudoDir.message(), "`pseudo_dir` is not valid UTF-8");
    assert_eq!(qe::pw::serialize::Error::OutDir.message(), "`out_dir` is not valid UTF-8");
    let empty: input::ErrorList = qe::error::ErrorList { errs: vec![] };
    assert_eq!(empty.message(), "");
}
