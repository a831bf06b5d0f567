//! Table names. A table name is spliced into the text of a statement, so only
//! names made of ASCII letters, digits and underscores are accepted.

use vstd::prelude::*;
use vstd::string::*;

verus! {

/// Whether `c` may stand in a table name: an ASCII letter, a digit or `_`.
pub open spec fn spec_is_name_char(c: char) -> bool {
    ('a' <= c && c <= 'z') || ('A' <= c && c <= 'Z') || ('0' <= c && c <= '9') || c == '_'
}

/// Whether `name` may be used as a table name: it is not empty and each of
/// its characters satisfies [`spec_is_name_char`].
pub open spec fn spec_valid_name(name: Seq<char>) -> bool {
    name.len() > 0 && forall|i: int| 0 <= i < name.len() ==> spec_is_name_char(#[trigger] name[i])
}

/// Decides whether `c` may stand in a table name.
pub fn is_name_char(c: char) -> (ok: bool)
    ensures
        ok == spec_is_name_char(c),
{
    (c >= 'a' && c <= 'z') || (c >= 'A' && c <= 'Z') || (c >= '0' && c <= '9') || c == '_'
}

/// Decides whether `name` may be used as a table name.
pub fn valid_name(name: &str) -> (ok: bool)
    ensures
        ok == spec_valid_name(name@),
{
    let mut any = false;
    for c in it: name.chars()
        invariant
            any == (it.index() > 0),
            it.seq() == name@,
            forall|i: int| 0 <= i < it.index() ==> spec_is_name_char(#[trigger] name@[i]),
    {
        if !is_name_char(c) {
            return false;
        }
        any = true;
    }
    any
}

} // verus!
