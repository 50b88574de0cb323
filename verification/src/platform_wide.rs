//! Wide-character path codec, for platform families whose paths are
//! sequences of 16-bit code units (including unpaired surrogates).
//!
//! Encoding emits each code unit as two bytes, low byte first, one unit at
//! a time. Decoding consumes bytes two at a time and reports corruption if
//! the record holds an odd number of bytes.

use vstd::prelude::*;
use vstd::arithmetic::div_mod::lemma_fundamental_div_mod;

use crate::codec::CodecError;

verus! {

/// Low byte of a 16-bit code unit.
pub open spec fn low_byte(u: u16) -> u8 {
    (u % 256) as u8
}

/// High byte of a 16-bit code unit.
pub open spec fn high_byte(u: u16) -> u8 {
    (u / 256) as u8
}

/// What encoding a path of code units `p` appends to a record: two bytes
/// per unit, low byte first.
pub open spec fn wide_encoded(p: Seq<u16>) -> Seq<u8> {
    Seq::new(
        p.len() * 2,
        |i: int| if i % 2 == 0 { low_byte(p[i / 2]) } else { high_byte(p[i / 2]) },
    )
}

/// What decoding an even-length record `bytes` yields: one code unit per
/// byte pair, the first byte of each pair being the low byte.
pub open spec fn wide_decoded(bytes: Seq<u8>) -> Seq<u16> {
    Seq::new(bytes.len() / 2, |i: int| (bytes[2 * i] + bytes[2 * i + 1] * 256) as u16)
}

/// Round trip: decoding an encoded path gives back exactly the original
/// code units, for every unit sequence — unpaired surrogate values included,
/// since every 16-bit value is carried verbatim.
pub proof fn lemma_wide_round_trip(p: Seq<u16>)
    ensures
        wide_decoded(wide_encoded(p)) == p,
{
    let enc = wide_encoded(p);
    assert(enc.len() == p.len() * 2);
    assert forall|i: int| 0 <= i < p.len() implies wide_decoded(enc)[i] == p[i] by {
        assert((2 * i) % 2 == 0);
        assert((2 * i + 1) % 2 == 1);
        assert((2 * i) / 2 == i);
        assert((2 * i + 1) / 2 == i);
        assert(enc[2 * i] == low_byte(p[i]));
        assert(enc[2 * i + 1] == high_byte(p[i]));
        lemma_fundamental_div_mod(p[i] as int, 256);
        assert(low_byte(p[i]) + high_byte(p[i]) * 256 == p[i]);
    }
    assert(wide_decoded(wide_encoded(p)) =~= p);
}

/// Append the encoding of `path` (its native 16-bit code units) to the
/// record buffer `w`: two bytes per unit, low byte first.
pub fn write_path(w: &mut Vec<u8>, path: &Vec<u16>)
    ensures
        final(w)@ == old(w)@ + wide_encoded(path@),
{
    let ghost base = w@;
    let mut i: usize = 0;
    while i < path.len()
        invariant
            i <= path@.len(),
            w@ == base + wide_encoded(path@.subrange(0, i as int)),
        decreases path@.len() - i,
    {
        let word = path[i];
        let lo: u8 = (word % 256) as u8;
        let hi: u8 = (word / 256) as u8;
        w.push(lo);
        w.push(hi);
        i = i + 1;
        proof {
            assert(w@ =~= base + wide_encoded(path@.subrange(0, i as int))) by {
                let pre = path@.subrange(0, i - 1);
                let cur = path@.subrange(0, i as int);
                assert(wide_encoded(cur).len() == i * 2);
                assert forall|j: int| 0 <= j < i * 2 implies wide_encoded(cur)[j] == (wide_encoded(
                    pre,
                ) + seq![lo, hi])[j] by {
                    if j < (i - 1) * 2 {
                        assert(cur[j / 2] == pre[j / 2]);
                    } else if j == (i - 1) * 2 {
                        assert(j % 2 == 0 && j / 2 == i - 1);
                        assert(cur[j / 2] == word);
                    } else {
                        assert(j == (i - 1) * 2 + 1);
                        assert(j % 2 == 1 && j / 2 == i - 1);
                        assert(cur[j / 2] == word);
                    }
                }
                assert(wide_encoded(cur) =~= wide_encoded(pre) + seq![lo, hi]);
            }
        }
    }
    proof {
        assert(path@.subrange(0, path@.len() as int) =~= path@);
        assert(w@ =~= base + wide_encoded(path@));
    }
}

/// Decode a whole record buffer back into a path's 16-bit code units.
/// A record with an odd number of bytes is corrupted and is rejected;
/// every even-length record decodes.
pub fn read_path(r: &Vec<u8>) -> (out: Result<Vec<u16>, CodecError>)
    ensures
        r@.len() % 2 == 0 ==> (out matches Ok(p) && p@ == wide_decoded(r@)),
        r@.len() % 2 != 0 ==> out == Err::<Vec<u16>, CodecError>(CodecError::OddLength),
{
    if r.len() % 2 != 0 {
        return Err(CodecError::OddLength);
    }
    let n: usize = r.len();
    let units: usize = n / 2;
    let mut path: Vec<u16> = Vec::new();
    let mut i: usize = 0;
    while i < units
        invariant
            i <= units,
            n == r@.len(),
            units == r@.len() / 2,
            r@.len() % 2 == 0,
            path@ == wide_decoded(r@).subrange(0, i as int),
        decreases units - i,
    {
        proof {
            assert(2 * i + 1 < n);
        }
        let lo: u16 = r[2 * i] as u16;
        let hi: u16 = r[2 * i + 1] as u16;
        path.push(lo + hi * 256);
        i = i + 1;
        proof {
            assert(path@ =~= wide_decoded(r@).subrange(0, i as int));
        }
    }
    proof {
        assert(path@ =~= wide_decoded(r@));
    }
    Ok(path)
}

/// Whether the build tool should be forced to emit coloured output: never,
/// on the wide-character platform family, because colour is communicated
/// over a side channel there.
pub fn force_cargo_color() -> (b: bool)
    ensures
        b == false,
{
    false
}

} // verus!
