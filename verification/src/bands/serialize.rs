//! Rendering of a `bands.x` input file.
use vstd::prelude::*;
use vstd::string::StringExecFns;
use vstd::utf8::{decode_utf8, valid_utf8};
use crate::bands::input::Input;
use crate::error::Message;
use crate::serialize_util::{push_bool_field, with_bool_field};
use crate::text::{first_line, join, join_lines, push_line, utf8_text, wrap};

verus! {

/// Why an input file could not be rendered.
#[derive(Debug, Clone, PartialEq, Eq)]
pub enum Error {
    /// The path `out_dir` is not valid UTF-8.
    OutDir,
    /// The path `filband` is not valid UTF-8.
    Filband,
}

impl Message for Error {
    open spec fn message_spec(&self) -> Seq<char> {
        match *self {
            Error::OutDir => "`out_dir` is not valid UTF-8"@,
            Error::Filband => "`filband` is not valid UTF-8"@,
        }
    }

    fn message(&self) -> (s: String) {
        match self {
            Error::OutDir => String::from_str("`out_dir` is not valid UTF-8"),
            Error::Filband => String::from_str("`filband` is not valid UTF-8"),
        }
    }
}

/// The path error that stops the rendering, if there is one: `out_dir` is
/// looked at before `filband`.
pub open spec fn path_error(input: &Input) -> Option<Error> {
    let out_dir_fails = match input.out_dir {
        Some(p) => !valid_utf8(p@),
        None => false,
    };
    let filband_fails = match input.filband {
        Some(p) => !valid_utf8(p@),
        None => false,
    };
    if out_dir_fails {
        Some(Error::OutDir)
    } else if filband_fails {
        Some(Error::Filband)
    } else {
        None
    }
}

/// The lines of the `bands` namelist, for an input whose paths are valid
/// UTF-8: each field that is set, in the order prefix, output directory, band
/// file, and then the symmetry flag.
pub open spec fn input_lines(input: &Input) -> Seq<Seq<char>> {
    let l = seq![" &bands"@];
    let l = match input.prefix {
        Some(prefix) => l.push("   prefix='"@ + prefix@ + "',"@),
        None => l,
    };
    let l = match input.out_dir {
        Some(p) => l.push("   out_dir='"@ + decode_utf8(p@) + "',"@),
        None => l,
    };
    let l = match input.filband {
        Some(p) => l.push("   filband='"@ + decode_utf8(p@) + "',"@),
        None => l,
    };
    with_bool_field(l, "lsym"@, Some(input.lsym)).push(" /"@)
}

/// Whether `r` is what rendering `input` gives: the error of the first path
/// that is not valid UTF-8, or else the lines of the namelist with a line
/// break between each two.
pub open spec fn rendered(input: &Input, r: Result<String, Error>) -> bool {
    match r {
        Ok(s) => path_error(input) is None && s@ == join(input_lines(input), "\n"@),
        Err(e) => path_error(input) == Some(e),
    }
}

/// Rendering has no hidden state: two results of rendering one input agree.
/// Both are the same text, or both are the same error.
pub proof fn lemma_rendering_is_repeatable(
    input: &Input,
    first: Result<String, Error>,
    second: Result<String, Error>,
)
    requires
        rendered(input, first),
        rendered(input, second),
    ensures
        match (first, second) {
            (Ok(a), Ok(b)) => a@ == b@,
            (Err(a), Err(b)) => a == b,
            _ => false,
        },
{
}

/// Renders the input file.
pub fn make_input_file(input: &Input) -> (r: Result<String, Error>)
    ensures
        rendered(input, r),
{
    let mut lines = first_line(" &bands");

    if let Some(prefix) = &input.prefix {
        push_line(&mut lines, wrap("   prefix='", prefix.as_str(), "',"));
    }
    if let Some(out_dir) = &input.out_dir {
        match utf8_text(out_dir) {
            Some(path) => {
                push_line(&mut lines, wrap("   out_dir='", path, "',"));
            },
            None => {
                return Err(Error::OutDir);
            },
        }
    }
    if let Some(filband) = &input.filband {
        match utf8_text(filband) {
            Some(path) => {
                push_line(&mut lines, wrap("   filband='", path, "',"));
            },
            None => {
                return Err(Error::Filband);
            },
        }
    }
    push_bool_field(&mut lines, "lsym", Some(input.lsym));
    push_line(&mut lines, String::from_str(" /"));
    Ok(join_lines(&lines, "\n"))
}

} // verus!
