//! Rendering of optional logical fields, shared by all the renderers.
use vstd::prelude::*;
use crate::text::{push_line, views, wrap};

verus! {

/// The token for a logical value in a namelist.
pub open spec fn bool_token(b: bool) -> Seq<char> {
    if b {
        ".true."@
    } else {
        ".false."@
    }
}

/// The namelist line that sets the logical field `name` to `b`.
pub open spec fn bool_field_line(name: Seq<char>, b: bool) -> Seq<char> {
    "    "@ + name + "="@ + bool_token(b) + ","@
}

/// The lines after a logical field was offered: one more line if the field
/// is set, the same lines if it is not.
pub open spec fn with_bool_field(lines: Seq<Seq<char>>, name: Seq<char>, b: Option<bool>) -> Seq<
    Seq<char>,
> {
    match b {
        Some(b) => lines.push(bool_field_line(name, b)),
        None => lines,
    }
}

/// Appends the line for an optional logical field: nothing where the field is
/// unset, `name=.true.,` or `name=.false.,` behind four blanks where it is set.
pub fn push_bool_field(lines: &mut Vec<String>, name: &str, b: Option<bool>)
    ensures
        views(final(lines)@) == with_bool_field(views(old(lines)@), name@, b),
        b is None ==> *final(lines) == *old(lines),
{
    if let Some(b) = b {
        let val = if b {
            ".true."
        } else {
            ".false."
        };
        let mut line = wrap("    ", name, "=");
        line.append(val);
        line.append(",");
        push_line(lines, line);
    }
}

} // verus!
