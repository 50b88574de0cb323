//! Byte-native path codec, for platform families whose paths are arbitrary
//! byte sequences (not necessarily valid text).
//!
//! Encoding emits the path's native bytes unchanged; decoding is the exact
//! identity inverse, so `read_path` of `write_path` of any representable
//! path returns that path, byte for byte.

use vstd::prelude::*;

use crate::codec::CodecError;

verus! {

/// What encoding a path of native bytes `p` appends to a record: the bytes
/// themselves, unchanged.
pub open spec fn byte_encoded(p: Seq<u8>) -> Seq<u8> {
    p
}

/// What decoding a record `bytes` yields: the bytes themselves, unchanged.
pub open spec fn byte_decoded(bytes: Seq<u8>) -> Seq<u8> {
    bytes
}

/// Round trip: decoding an encoded path gives back exactly the original
/// path, for every byte sequence, including ones that are not valid text.
pub proof fn lemma_byte_round_trip(p: Seq<u8>)
    ensures
        byte_decoded(byte_encoded(p)) == p,
{
}

/// Append the encoding of `path` (its native bytes, as handed out by the
/// platform for the path) to the record buffer `w`.
pub fn write_path(w: &mut Vec<u8>, path: &Vec<u8>)
    ensures
        final(w)@ == old(w)@ + byte_encoded(path@),
{
    let mut i: usize = 0;
    while i < path.len()
        invariant
            i <= path@.len(),
            w@ == old(w)@ + path@.subrange(0, i as int),
        decreases path@.len() - i,
    {
        w.push(path[i]);
        i = i + 1;
        proof {
            assert(w@ =~= old(w)@ + path@.subrange(0, i as int));
        }
    }
    proof {
        assert(w@ =~= old(w)@ + path@);
    }
}

/// Decode a whole record buffer back into a path's native bytes. The
/// byte-native strategy cannot encounter corruption: every input decodes.
pub fn read_path(r: &Vec<u8>) -> (out: Result<Vec<u8>, CodecError>)
    ensures
        out matches Ok(p) && p@ == byte_decoded(r@),
{
    let mut path: Vec<u8> = Vec::new();
    let mut i: usize = 0;
    while i < r.len()
        invariant
            i <= r@.len(),
            path@ == r@.subrange(0, i as int),
        decreases r@.len() - i,
    {
        path.push(r[i]);
        i = i + 1;
        proof {
            assert(path@ =~= r@.subrange(0, i as int));
        }
    }
    proof {
        assert(path@ =~= r@);
    }
    Ok(path)
}

/// Relies on `atty::is(atty::Stream::Stderr)`: reports whether this
/// process's standard error stream is attached to a terminal. The result
/// depends on how the process was launched; nothing further is promised.
#[verifier::external_body]
fn stderr_is_terminal() -> bool {
    atty::is(atty::Stream::Stderr)
}

/// Whether the build tool should be forced to emit coloured output: true
/// exactly when standard error is a terminal, as reported by the platform.
pub fn force_cargo_color() -> bool {
    stderr_is_terminal()
}

} // verus!
