//! Decides whether a path, and everything under it, must be excluded from
//! traversal and accounting.
//!
//! The decision is a case-insensitive substring match against a fixed list
//! of known non-useful or protected locations. No filesystem access is
//! performed. Because the match is a substring match on the full path, a
//! path that is skipped drags every path below it along: descendants
//! contain the ancestor's path verbatim, so they match the same pattern.

use vstd::prelude::*;
use crate::strings::contains_ci;
use crate::strings::lemma_contains_ci_extends;
use crate::strings::occurs_within;
use crate::strings::str_contains_ci;

verus! {

/// A path is excluded when any of the fixed patterns occurs in it,
/// comparing ASCII case-insensitively.
pub open spec fn should_skip_spec(p: Seq<char>) -> bool {
    ||| contains_ci(p, "$recycle.bin"@)
    ||| contains_ci(p, "system volume information"@)
    ||| contains_ci(p, "windows\\system32"@)
    ||| contains_ci(p, "windows\\winsxs"@)
    ||| contains_ci(p, "windows\\temp"@)
    ||| contains_ci(p, "programdata\\microsoft\\windows\\wer"@)
    ||| contains_ci(p, "programdata\\microsoft\\windows\\caches"@)
    ||| contains_ci(p, "users\\default\\appdata\\local\\temp"@)
    ||| contains_ci(p, "users\\default\\appdata\\local\\microsoft\\windows\\inetcache"@)
}

/// Decides whether `path` is excluded from traversal and accounting.
pub fn should_skip(path: &str) -> (r: bool)
    ensures
        r == should_skip_spec(path@),
{
    str_contains_ci(path, "$recycle.bin") || str_contains_ci(path, "system volume information")
        || str_contains_ci(path, "windows\\system32") || str_contains_ci(path, "windows\\winsxs")
        || str_contains_ci(path, "windows\\temp") || str_contains_ci(
        path,
        "programdata\\microsoft\\windows\\wer",
    ) || str_contains_ci(path, "programdata\\microsoft\\windows\\caches") || str_contains_ci(
        path,
        "users\\default\\appdata\\local\\temp",
    ) || str_contains_ci(path, "users\\default\\appdata\\local\\microsoft\\windows\\inetcache")
}

/// Filter law: a path that contains "$recycle.bin" anywhere, in any
/// character case, is excluded.
pub proof fn lemma_recycle_bin_skipped(p: Seq<char>)
    requires
        contains_ci(p, "$recycle.bin"@),
    ensures
        should_skip_spec(p),
{
}

/// Filter law: exclusion extends to descendants. Any path that contains an
/// excluded path verbatim — as every path below a directory contains the
/// directory's path — is itself excluded.
pub proof fn lemma_skip_extends_to_descendants(p: Seq<char>, d: Seq<char>)
    requires
        should_skip_spec(p),
        occurs_within(d, p),
    ensures
        should_skip_spec(d),
{
    if contains_ci(p, "$recycle.bin"@) {
        lemma_contains_ci_extends(d, p, "$recycle.bin"@);
    } else if contains_ci(p, "system volume information"@) {
        lemma_contains_ci_extends(d, p, "system volume information"@);
    } else if contains_ci(p, "windows\\system32"@) {
        lemma_contains_ci_extends(d, p, "windows\\system32"@);
    } else if contains_ci(p, "windows\\winsxs"@) {
        lemma_contains_ci_extends(d, p, "windows\\winsxs"@);
    } else if contains_ci(p, "windows\\temp"@) {
        lemma_contains_ci_extends(d, p, "windows\\temp"@);
    } else if contains_ci(p, "programdata\\microsoft\\windows\\wer"@) {
        lemma_contains_ci_extends(d, p, "programdata\\microsoft\\windows\\wer"@);
    } else if contains_ci(p, "programdata\\microsoft\\windows\\caches"@) {
        lemma_contains_ci_extends(d, p, "programdata\\microsoft\\windows\\caches"@);
    } else if contains_ci(p, "users\\default\\appdata\\local\\temp"@) {
        lemma_contains_ci_extends(d, p, "users\\default\\appdata\\local\\temp"@);
    } else {
        lemma_contains_ci_extends(
            d,
            p,
            "users\\default\\appdata\\local\\microsoft\\windows\\inetcache"@,
        );
    }
}

} // verus!
