use qe::bands;
use qe::error::Message;
use qe::pw2wannier90;

#[test]
fn bands_input_with_every_field() {
    let input = bands::input::Input {
        prefix: Some(String::from("iron")),
        out_dir: Some(b"./tmp".to_vec()),
        filband: Some("b\u{e4}nder.dat".as_bytes().to_vec()),
        lsym: true,
    };
    assert_eq!(
        bands::serialize::make_input_file(&input),
        Ok(String::from(
            " &bands\n   prefix='iron',\n   out_dir='./tmp',\n   filband='b\u{e4}nder.dat',\n    lsym=.true.,\n /"
        ))
    );
}

#[test]
fn bands_input_with_no_optional_field() {
    let input = bands::input::Input { prefix: None, out_dir: None, filband: None, lsym: false };
    assert_eq!(
        bands::serialize::make_input_file(&input),
        Ok(String::from(" &bands\n    lsym=.false.,\n /"))
    );
}

#[test]
fn bands_path_errors() {
    let mut input = bands::input::Input {
        prefix: None,
        out_dir: Some(vec![0x80]),
        filband: Some(vec![0xe2, 0x82]),
        lsym: false,
    };
    assert_eq!(bands::serialize::make_input_file(&input), Err(bands::serialize::Error::OutDir));
    input.out_dir = Some(vec![]);
    assert_eq!(bands::serialize::make_input_file(&input), Err(bands::serialize::Error::Filband));
    input.filband = None;
    assert_eq!(
        bands::serialize::make_input_file(&input),
        Ok(String::from(" &bands\n   out_dir='',\n    lsym=.false.,\n /"))
    );
    assert_eq!(bands::serialize::Error::OutDir.message(), "`out_dir` is not valid UTF-8");
    assert_eq!(bands::serialize::Error::Filband.message(), "`filband` is not valid UTF-8");
}

#[test]
fn wannier_interface_input() {
    let input = pw2wannier90::input::Input {
        prefix: String::from("iron"),
        out_dir: Some(b"tmp".to_vec()),
        seedname: String::from("fe"),
        write_unk: false,
        write_amn: true,
        write_mmn: true,
        write_spn: false,
    };
    assert_eq!(
        pw2wannier90::serialize::make_input_file(&input),
        Ok(String::from(
            " &inputpp\n   prefix='iron',\n   out_dir='tmp',\n   seedname='fe',\n    write_unk=.false.,\n    write_amn=.true.,\n    write_mmn=.true.,\n    write_spn=.false.,\n /"
        ))
    );
}

#[test]
fn wannier_interface_without_directory() {
    let input = pw2wannier90::input::Input {
        prefix: String::from("p"),
        out_dir: None,
        seedname: String::from("s"),
        write_unk: true,
        write_amn: false,
        write_mmn: false,
        write_spn: true,
    };
    assert_eq!(
        pw2wannier90::serialize::make_input_file(&input),
        Ok(String::from(
            " &inputpp\n   prefix='p',\n   seedname='s',\n    write_unk=.true.,\n    write_amn=.false.,\n    write_mmn=.false.,\n    write_spn=.true.,\n /"
        ))
    );
}

#[test]
fn wannier_interface_path_error() {
    let input = pw2wannier90::input::Input {
        prefix: String::from("p"),
        out_dir: Some(vec![0x66, 0xc0, 0xaf]),
        seedname: String::from("s"),
        write_unk: true,
        write_amn: true,
        write_mmn: true,
        write_spn: true,
    };
    assert_eq!(
        pw2wannier90::serialize::make_input_file(&input),
        Err(pw2wannier90::serialize::Error::OutDir)
    );
    assert_eq!(pw2wannier90::serialize::Error::OutDir.message(), "`out_dir` is not valid UTF-8");
}
