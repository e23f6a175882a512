//! Filesystem paths, handled as text.

use vstd::prelude::*;
use crate::chars::{append_str, chars_of, string_of};

verus! {

/// `base` joined with the relative path `rel`, as `Path::join` renders it.
pub open spec fn joined(base: Seq<char>, rel: Seq<char>) -> Seq<char> {
    if base.len() == 0 {
        rel
    } else if base.last() == '/' {
        base + rel
    } else {
        base + seq!['/'] + rel
    }
}

/// Joins the relative path `rel` onto `base`.
pub fn join_path(base: &str, rel: &str) -> (r: String)
    ensures
        r@ == joined(base@, rel@),
{
    let b = chars_of(base);
    let mut out = b.clone();
    if b.len() > 0 && b[b.len() - 1] != '/' {
        out.push('/');
    }
    append_str(&mut out, rel);
    assert(out@ =~= joined(base@, rel@));
    string_of(&out)
}

} // verus!
