//! Timestamps for build-freshness checks.
//!
//! Both producers — the current time and a file's last-modified time — report
//! milliseconds since the same fixed epoch, clamped by the same policy: any
//! abnormal reading (a clock before the epoch, unavailable file metadata)
//! becomes zero instead of an error, so a cached artifact is treated as
//! maximally stale rather than failing the whole lookup.

use vstd::prelude::*;

verus! {

/// What an underlying time source reported, before clamping.
///
/// `Unavailable` stands for a source that could not be read at all (for
/// example, file metadata that the filesystem refuses to hand out);
/// `BeforeEpoch` for a reading that lies strictly before the epoch;
/// `AtOrAfterEpoch(m)` for a reading of `m` whole milliseconds at or after
/// the epoch (`m == 0` is a reading exactly at the epoch).
#[derive(Clone, Copy, Debug, PartialEq, Eq, Structural)]
pub enum ClockReading {
    Unavailable,
    BeforeEpoch,
    AtOrAfterEpoch(u128),
}

/// A reading that lies at or before the epoch.
pub open spec fn at_or_before_epoch(r: ClockReading) -> bool {
    r is BeforeEpoch || r == ClockReading::AtOrAfterEpoch(0u128)
}

/// The clamping policy shared by every timestamp producer in this crate.
pub open spec fn clamped(r: ClockReading) -> u128 {
    match r {
        ClockReading::Unavailable => 0,
        ClockReading::BeforeEpoch => 0,
        ClockReading::AtOrAfterEpoch(m) => m,
    }
}

/// Clamp a raw reading to a timestamp: abnormal readings become zero,
/// normal readings pass through unchanged.
pub fn clamp_millis(r: &ClockReading) -> (t: u128)
    ensures
        t == clamped(*r),
{
    match r {
        ClockReading::Unavailable => 0,
        ClockReading::BeforeEpoch => 0,
        ClockReading::AtOrAfterEpoch(m) => *m,
    }
}

/// A clamped timestamp is nonzero only when the source reported a reading
/// strictly after the epoch: an unavailable source, or one reporting a time
/// at or before the epoch, always clamps to zero.
pub proof fn lemma_clamp_zero_on_abnormal(r: ClockReading)
    ensures
        r is Unavailable || at_or_before_epoch(r) ==> clamped(r) == 0,
        clamped(r) != 0 ==> r == ClockReading::AtOrAfterEpoch(clamped(r)),
{
}

#[verifier::external_type_specification]
#[verifier::external_body]
pub struct ExSystemTime(std::time::SystemTime);

/// Relies on `std::time::SystemTime::now`: an opaque reading of the system
/// clock, of which nothing is promised.
#[verifier::external_body]
fn system_now() -> std::time::SystemTime {
    std::time::SystemTime::now()
}

/// Relies on `SystemTime::duration_since(UNIX_EPOCH)`: `Ok` holds the
/// elapsed duration (whose whole-millisecond count `Duration::as_millis`
/// reads out) when the reading lies at or after the epoch, `Err` comes when
/// it lies before — so an actual clock reading is never "unavailable".
#[verifier::external_body]
fn reading_since_epoch(t: &std::time::SystemTime) -> (r: ClockReading)
    ensures
        !(r is Unavailable),
{
    match t.duration_since(std::time::UNIX_EPOCH) {
        Ok(d) => ClockReading::AtOrAfterEpoch(d.as_millis()),
        Err(_) => ClockReading::BeforeEpoch,
    }
}

/// Current system time in milliseconds since the epoch, clamped: a clock
/// that reads before the epoch yields zero rather than an error.
pub fn current_time() -> (t: u128) {
    let now = system_now();
    let r = reading_since_epoch(&now);
    clamp_millis(&r)
}

/// Last-modified time of a file, in milliseconds since the epoch, from the
/// metadata reading the caller observed. Unavailable metadata and pre-epoch
/// times clamp to zero (fail open: treat the artifact as maximally stale).
pub fn modified_time(r: &ClockReading) -> (t: u128)
    ensures
        t == clamped(*r),
{
    clamp_millis(r)
}

} // verus!
