//! Platform tags used in `PluginManifest::platforms`.

use vstd::prelude::*;
use crate::text::str_eq;

verus! {

pub const WINDOWS: &'static str = "windows";
pub const LINUX: &'static str = "linux";
pub const MACOS: &'static str = "macos";
pub const ANDROID: &'static str = "android";

/// Whether `p` is one of the platform tags the host recognizes.
pub open spec fn is_known(p: Seq<char>) -> bool {
    ||| p == WINDOWS@
    ||| p == LINUX@
    ||| p == MACOS@
    ||| p == ANDROID@
}

/// Whether the host recognizes platform tag `p`.
pub fn is_known_platform(p: &str) -> (r: bool)
    ensures
        r == is_known(p@),
{
    str_eq(p, WINDOWS) || str_eq(p, LINUX) || str_eq(p, MACOS) || str_eq(p, ANDROID)
}

} // verus!
