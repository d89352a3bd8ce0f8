//! Points in time.
use vstd::prelude::*;

verus! {

/// A point in time: seconds since the epoch, and nanoseconds on top.
#[derive(Debug, Clone, Copy, PartialEq, Eq, Structural)]
pub struct Timestamp {
    pub secs: i64,
    pub nanos: u32,
}

impl Timestamp {
    /// Nanoseconds since the epoch.
    pub open spec fn total(self) -> int {
        self.secs * 1_000_000_000 + self.nanos
    }
}

/// Whole seconds from `from` to `to`, zero where `to` comes first, and no more
/// than fits.
pub open spec fn whole_seconds(from: Timestamp, to: Timestamp) -> int {
    let diff = to.total() - from.total();
    if diff < 0 {
        0
    } else if diff / 1_000_000_000 > i64::MAX {
        i64::MAX as int
    } else {
        diff / 1_000_000_000
    }
}

/// Whole seconds from `from` to `to`, zero where `to` comes first.
pub fn seconds_between(from: Timestamp, to: Timestamp) -> (s: i64)
    ensures
        s == whole_seconds(from, to),
{
    let a: i128 = from.secs as i128 * 1_000_000_000 + from.nanos as i128;
    let b: i128 = to.secs as i128 * 1_000_000_000 + to.nanos as i128;
    if b < a {
        return 0;
    }
    let whole: u128 = (b - a) as u128 / 1_000_000_000;
    if whole > 0x7fff_ffff_ffff_ffff {
        0x7fff_ffff_ffff_ffff
    } else {
        whole as i64
    }
}

} // verus!
