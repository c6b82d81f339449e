//! Joining plugin-relative paths the way `Path::join` does on Unix.

use vstd::prelude::*;
use crate::text::{chars_of, concat};

verus! {

/// `rel` resolved against `base` with Unix path rules: an absolute `rel`
/// (starting with `/`) replaces `base`, an empty `base` yields `rel`, and
/// otherwise one `/` separates the two unless `base` already ends with one.
/// Windows rules (`\` separators, drive letters) are not modelled: the
/// paths built here always separate with `/`, which Windows file APIs accept
/// as a separator too.
pub open spec fn path_join(base: Seq<char>, rel: Seq<char>) -> Seq<char> {
    if rel.len() > 0 && rel[0] == '/' {
        rel
    } else if base.len() == 0 {
        rel
    } else if base.last() == '/' {
        base + rel
    } else {
        base + seq!['/'] + rel
    }
}

/// Joins `rel` onto `base` with Unix path rules (see [`path_join`]).
pub fn join_path(base: &str, rel: &str) -> (p: String)
    ensures
        p@ == path_join(base@, rel@),
{
    let b = chars_of(base);
    let r = chars_of(rel);
    if r.len() > 0 && r[0] == '/' {
        rel.to_owned()
    } else if b.len() == 0 {
        rel.to_owned()
    } else if b[b.len() - 1] == '/' {
        concat(base, rel)
    } else {
        let mut p = concat(base, "/");
        proof {
            reveal_strlit("/");
        }
        p.append(rel);
        p
    }
}

} // verus!
