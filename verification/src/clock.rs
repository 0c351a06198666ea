//! Clock readings, as plain integers the caller supplies.
use vstd::prelude::*;

verus! {

/// A wall-clock instant: whole seconds since the Unix epoch and the nanoseconds past them.
#[derive(Debug, Clone, Copy)]
pub struct Timestamp {
    pub secs: i64,
    pub nanos: u32,
}

impl Timestamp {
    /// The nanosecond part is below one second.
    pub open spec fn wf(self) -> bool {
        self.nanos < 1_000_000_000
    }

    /// Nanoseconds since the Unix epoch.
    pub open spec fn total_nanos(self) -> int {
        self.secs * 1_000_000_000 + self.nanos
    }
}

/// Whether at least `secs` whole seconds separate `then` from `now`, as
/// `(now - then).num_seconds() >= secs` decides it for `secs > 0`.
pub open spec fn seconds_passed(now: Timestamp, then: Timestamp, secs: int) -> bool {
    now.total_nanos() - then.total_nanos() >= secs * 1_000_000_000
}

/// Executable `seconds_passed`.
pub fn has_seconds_passed(now: &Timestamp, then: &Timestamp, secs: u64) -> (b: bool)
    ensures
        b == seconds_passed(*now, *then, secs as int),
{
    let a: i128 = now.secs as i128 * 1_000_000_000i128 + now.nanos as i128;
    let z: i128 = then.secs as i128 * 1_000_000_000i128 + then.nanos as i128;
    let need: i128 = secs as i128 * 1_000_000_000i128;
    a - z >= need
}

/// Whether a monotonic reading `now` is at least `secs` seconds after `then`
/// (nanosecond readings; a reading before `then` counts as no time elapsed).
pub open spec fn monotonic_elapsed(now: u64, then: u64, secs: u64) -> bool {
    (if now >= then { now - then } else { 0 }) >= secs * 1_000_000_000
}

/// Executable `monotonic_elapsed`.
pub fn has_elapsed(now: u64, then: u64, secs: u64) -> (b: bool)
    ensures
        b == monotonic_elapsed(now, then, secs),
{
    let e: u128 = if now >= then { (now - then) as u128 } else { 0 };
    e >= secs as u128 * 1_000_000_000u128
}

} // verus!
