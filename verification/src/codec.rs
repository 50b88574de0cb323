//! Shared error type for the two path-codec strategies.

use vstd::prelude::*;
use vstd::string::StringExecFns;

use crate::error::Blame;

verus! {

/// Why decoding a persisted path record failed.
#[derive(Clone, Copy, Debug, PartialEq, Eq, Structural)]
pub enum CodecError {
    /// A wide-character record must hold two bytes per code unit; an odd
    /// number of bytes means the record is corrupted or truncated.
    OddLength,
}

impl CodecError {
    /// A malformed record is the environment's fault, not the user's.
    pub fn blame(&self) -> (b: Blame)
        ensures
            b == Blame::Internal,
    {
        Blame::Internal
    }

    /// Human-readable description of the corruption.
    pub fn message(&self) -> (m: String)
        ensures
            m@ == "corrupted path record: odd number of bytes"@,
    {
        String::from_str("corrupted path record: odd number of bytes")
    }
}

} // verus!
