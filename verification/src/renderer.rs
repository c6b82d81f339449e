//! Whether the desktop window should fall back to software rendering (for
//! drivers where the accelerated path shows a blank window or crashes).

use vstd::prelude::*;
use crate::text::{chars_of, str_eq};

verus! {

/// The code of `c` with ASCII uppercase letters folded to lowercase.
pub open spec fn ascii_fold(c: char) -> u32 {
    if 'A' <= c && c <= 'Z' {
        (c as u32 + 32) as u32
    } else {
        c as u32
    }
}

/// Whether two strings are equal up to ASCII case.
pub open spec fn eq_ignore_ascii_case(a: Seq<char>, b: Seq<char>) -> bool {
    a.len() == b.len() && forall|i: int| 0 <= i < a.len() ==> ascii_fold(a[i]) == ascii_fold(b[i])
}

/// Whether the command line or the renderer setting asks for software
/// rendering.
pub open spec fn software_rendering(args: Seq<String>, renderer: Option<Seq<char>>) -> bool {
    (exists|i: int| 0 <= i < args.len() && (#[trigger] args[i])@ == "--software-rendering"@) || (
    renderer matches Some(v) && eq_ignore_ascii_case(v, "software"@))
}

fn fold(c: char) -> (x: u32)
    ensures
        x == ascii_fold(c),
{
    if 'A' <= c && c <= 'Z' {
        c as u32 + 32
    } else {
        c as u32
    }
}

/// Whether two strings are equal up to ASCII case.
pub fn equals_ignore_ascii_case(a: &str, b: &str) -> (r: bool)
    ensures
        r == eq_ignore_ascii_case(a@, b@),
{
    let x = chars_of(a);
    let y = chars_of(b);
    if x.len() != y.len() {
        return false;
    }
    let n = x.len();
    let mut i: usize = 0;
    while i < n
        invariant
            n == x@.len(),
            n == y@.len(),
            x@ == a@,
            y@ == b@,
            i <= n,
            forall|j: int| 0 <= j < i ==> ascii_fold(x@[j]) == ascii_fold(y@[j]),
        decreases n - i,
    {
        if fold(x[i]) != fold(y[i]) {
            return false;
        }
        i += 1;
    }
    true
}

/// Whether software rendering is requested: a `--software-rendering`
/// argument, or a renderer setting of `software` in any ASCII case.
pub fn software_rendering_requested(args: &Vec<String>, renderer: Option<&str>) -> (r: bool)
    ensures
        r == software_rendering(
            args@,
            match renderer {
                Some(v) => Some(v@),
                None => None,
            },
        ),
{
    let n = args.len();
    let mut i: usize = 0;
    while i < n
        invariant
            n == args@.len(),
            i <= n,
            forall|j: int| 0 <= j < i ==> (#[trigger] args@[j])@ != "--software-rendering"@,
        decreases n - i,
    {
        if str_eq(args[i].as_str(), "--software-rendering") {
            return true;
        }
        i += 1;
    }
    match renderer {
        Some(v) => equals_ignore_ascii_case(v, "software"),
        None => false,
    }
}

} // verus!
