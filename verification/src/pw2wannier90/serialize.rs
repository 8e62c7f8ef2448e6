//! Rendering of a `pw2wannier90.x` input file.
use vstd::prelude::*;
use vstd::string::StringExecFns;
use vstd::utf8::{decode_utf8, valid_utf8};
use crate::error::Message;
use crate::pw2wannier90::input::Input;
use crate::serialize_util::{push_bool_field, with_bool_field};
use crate::text::{first_line, join, join_lines, push_line, utf8_text, wrap};

verus! {

/// Why an input file could not be rendered.
#[derive(Debug, Clone, PartialEq, Eq)]
pub enum Error {
    /// The path `out_dir` is not valid UTF-8.
    OutDir,
}

impl Message for Error {
    open spec fn message_spec(&self) -> Seq<char> {
        match *self {
            Error::OutDir => "`out_dir` is not valid UTF-8"@,
        }
    }

    fn message(&self) -> (s: String) {
        match self {
            Error::OutDir => String::from_str("`out_dir` is not valid UTF-8"),
        }
    }
}

/// The path error that stops the rendering, if there is one.
pub open spec fn path_error(input: &Input) -> Option<Error> {
    match input.out_dir {
        Some(p) => if valid_utf8(p@) {
            None
        } else {
            Some(Error::OutDir)
        },
        None => None,
    }
}

/// The four write flags, in the order in which they are written, behind the
/// lines so far.
pub open spec fn with_write_flags(lines: Seq<Seq<char>>, input: &Input) -> Seq<Seq<char>> {
    let l = with_bool_field(lines, "write_unk"@, Some(input.write_unk));
    let l = with_bool_field(l, "write_amn"@, Some(input.write_amn));
    let l = with_bool_field(l, "write_mmn"@, Some(input.write_mmn));
    with_bool_field(l, "write_spn"@, Some(input.write_spn))
}

/// The lines of the `inputpp` namelist, for an input whose path is valid
/// UTF-8: the prefix, the output directory where it is set, the seed name,
/// and the four write flags.
pub open spec fn input_lines(input: &Input) -> Seq<Seq<char>> {
    let l = seq![" &inputpp"@].push("   prefix='"@ + input.prefix@ + "',"@);
    let l = match input.out_dir {
        Some(p) => l.push("   out_dir='"@ + decode_utf8(p@) + "',"@),
        None => l,
    };
    let l = l.push("   seedname='"@ + input.seedname@ + "',"@);
    with_write_flags(l, input).push(" /"@)
}

/// Whether `r` is what rendering `input` gives: an error where the path is not
/// valid UTF-8, or else the lines of the namelist with a line break between
/// each two.
pub open spec fn rendered(input: &Input, r: Result<String, Error>) -> bool {
    match r {
        Ok(s) => path_error(input) is None && s@ == join(input_lines(input), "\n"@),
        Err(e) => path_error(input) == Some(e),
    }
}

/// Rendering has no hidden state: two results of rendering one input agree.
/// Both are the same text, or both are the same error.
pub proof fn lemma_rendering_is_repeatable(
    input: &Input,
    first: Result<String, Error>,
    second: Result<String, Error>,
)
    requires
        rendered(input, first),
        rendered(input, second),
    ensures
        match (first, second) {
            (Ok(a), Ok(b)) => a@ == b@,
            (Err(a), Err(b)) => a == b,
            _ => false,
        },
{
}

/// Renders the input file.
pub fn make_input_file(input: &Input) -> (r: Result<String, Error>)
    ensures
        rendered(input, r),
{
    let mut lines = first_line(" &inputpp");

    push_line(&mut lines, wrap("   prefix='", input.prefix.as_str(), "',"));

    if let Some(out_dir) = &input.out_dir {
        match utf8_text(out_dir) {
            Some(path) => {
                push_line(&mut lines, wrap("   out_dir='", path, "',"));
            },
            None => {
                return Err(Error::OutDir);
            },
        }
    }
    push_line(&mut lines, wrap("   seedname='", input.seedname.as_str(), "',"));

    push_bool_field(&mut lines, "write_unk", Some(input.write_unk));
    push_bool_field(&mut lines, "write_amn", Some(input.write_amn));
    push_bool_field(&mut lines, "write_mmn", Some(input.write_mmn));
    push_bool_field(&mut lines, "write_spn", Some(input.write_spn));

    push_line(&mut lines, String::from_str(" /"));
    Ok(join_lines(&lines, "\n"))
}

} // verus!
