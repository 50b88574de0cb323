//! Blame classification for errors surfaced by this crate.

use vstd::prelude::*;

verus! {

/// Who is responsible for an error: the user's configuration, or the
/// machine environment (I/O failures, corrupted data, clock anomalies).
#[derive(Clone, Copy, Debug, PartialEq, Eq, Structural)]
pub enum Blame {
    Human,
    Internal,
}

} // verus!
