//! Path strings and the fixed directory names of the cache layout.
//!
//! The crate joins path components with `/` uniformly; the names below are
//! the two artifact subtrees of the current layout and the legacy directory
//! that the superseded layout nested them under.

use vstd::prelude::*;
use vstd::string::StringExecFns;

verus! {

/// The subtree holding cached script sources.
pub fn script_cache_name() -> (s: &'static str)
    ensures
        s@ == "script-cache"@,
{
    "script-cache"
}

/// The subtree holding cached compiled binaries.
pub fn binary_cache_name() -> (s: &'static str)
    ensures
        s@ == "binary-cache"@,
{
    "binary-cache"
}

/// The legacy-suffixed directory that the superseded layout nested the two
/// subtrees under, one level below the cache root.
pub fn legacy_dir_name() -> (s: &'static str)
    ensures
        s@ == "cargo-eval-legacy"@,
{
    "cargo-eval-legacy"
}

/// The characters of `a` joined to those of `b` by a single separator.
pub open spec fn joined(a: Seq<char>, b: Seq<char>) -> Seq<char> {
    a + "/"@ + b
}

/// Join two path components with a separator.
pub fn join_path(a: &str, b: &str) -> (r: String)
    ensures
        r@ == joined(a@, b@),
{
    String::from_str(a).concat("/").concat(b)
}

/// The legacy cache root that belongs to a given cache root candidate.
pub open spec fn legacy_root_spec(root: Seq<char>) -> Seq<char> {
    joined(root, "cargo-eval-legacy"@)
}

/// The legacy cache root under `root`: where the superseded layout kept its
/// artifact subtrees, and what the migration engine reconciles.
pub fn legacy_root_of(root: &str) -> (r: String)
    ensures
        r@ == legacy_root_spec(root@),
{
    join_path(root, legacy_dir_name())
}

} // verus!
