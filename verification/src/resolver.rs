//! Directory resolution: where the cache root and the config root live.
//!
//! Resolution is a pure function of the current environment, re-read on
//! every call. The caller (which alone may touch the process environment
//! and the filesystem) hands in a snapshot of the two directory-bearing
//! variables and a probe of the candidate's legacy subdirectory; any
//! environment, live or fake, can drive the same decision logic.

use vstd::prelude::*;
use vstd::string::StringExecFns;

use crate::error::Blame;
use crate::paths::{join_path, joined, legacy_root_of, legacy_root_spec};

verus! {

/// The primary override variable: names the tool's home directory outright.
pub fn primary_var_name() -> (s: &'static str)
    ensures
        s@ == "CARGO_EVAL_HOME"@,
{
    "CARGO_EVAL_HOME"
}

/// The generic home-directory variable, used when no override is set.
pub fn home_var_name() -> (s: &'static str)
    ensures
        s@ == "HOME"@,
{
    "HOME"
}

/// The fixed-name subdirectory of home that holds the cache when only the
/// home variable is set.
pub fn home_subdir_name() -> (s: &'static str)
    ensures
        s@ == ".cargo-eval"@,
{
    ".cargo-eval"
}

/// The values of the two directory-bearing environment variables at the
/// moment of the call: the primary override first in priority, then home.
pub struct EnvSnapshot {
    pub primary_home: Option<String>,
    pub user_home: Option<String>,
}

/// Resolution failed in a way the user can act on.
#[derive(Clone, Copy, Debug, PartialEq, Eq, Structural)]
pub enum ResolveError {
    /// Neither directory-bearing variable is set, so no cache or config
    /// directory can be located.
    NoDirectorySource,
}

impl ResolveError {
    /// The user, not this tool, is to blame: the environment lacks any
    /// directory signal.
    pub fn blame(&self) -> (b: Blame)
        ensures
            b == Blame::Human,
    {
        Blame::Human
    }

    /// Actionable description naming the missing variables.
    pub fn message(&self) -> (m: String)
        ensures
            m@ == "cannot locate a cache directory: neither CARGO_EVAL_HOME nor HOME is set"@,
    {
        String::from_str(
            "cannot locate a cache directory: neither CARGO_EVAL_HOME nor HOME is set",
        )
    }
}

/// The candidate cache root an environment snapshot yields, before the
/// legacy backward-compatibility override is considered: the primary
/// override's value if set, else the fixed subdirectory of home if home is
/// set, else nothing.
pub open spec fn candidate_spec(env: EnvSnapshot) -> Option<Seq<char>> {
    if env.primary_home is Some {
        Some(env.primary_home->0@)
    } else if env.user_home is Some {
        Some(joined(env.user_home->0@, ".cargo-eval"@))
    } else {
        None
    }
}

/// The candidate cache root, prior to the legacy override. Fails exactly
/// when neither variable is set.
pub fn cache_dir_candidate(env: &EnvSnapshot) -> (out: Result<String, ResolveError>)
    ensures
        candidate_spec(*env) matches Some(c) ==> (out matches Ok(d) && d@ == c),
        candidate_spec(*env) is None ==> out == Err::<String, ResolveError>(
            ResolveError::NoDirectorySource,
        ),
{
    match &env.primary_home {
        Some(p) => Ok(String::from_str(p.as_str())),
        None => match &env.user_home {
            Some(h) => Ok(join_path(h.as_str(), home_subdir_name())),
            None => Err(ResolveError::NoDirectorySource),
        },
    }
}

/// What the caller observed about the candidate root's legacy
/// subdirectory: whether that directory exists, and whether it contains at
/// least one of the known legacy marker subtrees.
#[derive(Clone, Copy, Debug, PartialEq, Eq, Structural)]
pub struct LegacyProbe {
    pub dir_exists: bool,
    pub has_marker: bool,
}

/// The directory resolution relation: the cache root an environment
/// snapshot and a probe of the primary candidate's legacy subdirectory
/// resolve to. When the primary override is set and its legacy
/// subdirectory exists with a marker inside, the legacy subdirectory wins
/// (backward compatibility); otherwise the candidate stands.
pub open spec fn resolved_spec(env: EnvSnapshot, probe: LegacyProbe) -> Option<Seq<char>> {
    if env.primary_home is Some {
        if probe.dir_exists && probe.has_marker {
            Some(legacy_root_spec(env.primary_home->0@))
        } else {
            Some(env.primary_home->0@)
        }
    } else if env.user_home is Some {
        Some(joined(env.user_home->0@, ".cargo-eval"@))
    } else {
        None
    }
}

/// Resolve the cache root. `probe` describes the legacy subdirectory of
/// the primary override's value (as `legacy_root_of` names it) and is
/// consulted only when that override is set. Fails, blaming the user,
/// exactly when neither variable is set.
pub fn resolve_cache_dir(env: &EnvSnapshot, probe: &LegacyProbe) -> (out: Result<
    String,
    ResolveError,
>)
    ensures
        resolved_spec(*env, *probe) matches Some(c) ==> (out matches Ok(d) && d@ == c),
        resolved_spec(*env, *probe) is None ==> out == Err::<String, ResolveError>(
            ResolveError::NoDirectorySource,
        ),
{
    match &env.primary_home {
        Some(p) => {
            if probe.dir_exists && probe.has_marker {
                Ok(legacy_root_of(p.as_str()))
            } else {
                Ok(String::from_str(p.as_str()))
            }
        },
        None => match &env.user_home {
            Some(h) => Ok(join_path(h.as_str(), home_subdir_name())),
            None => Err(ResolveError::NoDirectorySource),
        },
    }
}

/// Resolve the config root. Currently defined identically to
/// `resolve_cache_dir` on a given platform family — a simplification that
/// may diverge later, so callers must not assume the two stay equal.
pub fn resolve_config_dir(env: &EnvSnapshot, probe: &LegacyProbe) -> (out: Result<
    String,
    ResolveError,
>)
    ensures
        resolved_spec(*env, *probe) matches Some(c) ==> (out matches Ok(d) && d@ == c),
        resolved_spec(*env, *probe) is None ==> out == Err::<String, ResolveError>(
            ResolveError::NoDirectorySource,
        ),
{
    resolve_cache_dir(env, probe)
}

} // verus!
