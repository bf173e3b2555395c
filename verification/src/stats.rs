//! Aggregate statistics of one run.
//!
//! The aggregator is a pure function of the accumulated counters.  Latency
//! figures are carried in whole microseconds; the average is the integer
//! quotient of the accumulated sum by the number of replies, so it is exact
//! to the microsecond.  When no reply was received, every latency figure is
//! reported as zero, never as an uninitialized sentinel.

use vstd::prelude::*;

verus! {

/// The derived statistics of a run: a value, recomputed wholesale when a
/// run ends, with no independent identity.
#[derive(Clone, Copy, Debug, PartialEq, Eq, Structural)]
pub struct RunStats {
    /// Probes attempted.
    pub sent: u16,
    /// Replies received.
    pub received: u16,
    /// Smallest round-trip time, in microseconds; 0 when `received == 0`.
    pub min_micros: u64,
    /// Largest round-trip time, in microseconds; 0 when `received == 0`.
    pub max_micros: u64,
    /// Mean round-trip time, in microseconds; 0 when `received == 0`.
    pub avg_micros: u64,
}

impl RunStats {
    /// The all-zero statistics shown before any run has finished.
    pub fn zero() -> (s: RunStats)
        ensures
            s == (RunStats { sent: 0, received: 0, min_micros: 0, max_micros: 0, avg_micros: 0 }),
    {
        RunStats { sent: 0, received: 0, min_micros: 0, max_micros: 0, avg_micros: 0 }
    }

    /// Lost fraction of the sent probes, in tenths of a percent, rounded
    /// down: `(sent - received) * 1000 / sent`.  Defined as 0 when nothing
    /// was sent, so it is always a meaningful number.
    pub fn loss_tenths(&self) -> (r: u32)
        requires
            self.received <= self.sent,
        ensures
            self.sent > 0 ==> r == (self.sent - self.received) * 1000 / (self.sent as int),
            self.sent == 0 ==> r == 0,
    {
        if self.sent == 0 {
            0
        } else {
            ((self.sent - self.received) as u32 * 1000) / (self.sent as u32)
        }
    }
}

/// Folds the accumulated counters of a finished run into its statistics.
///
/// `sum_micros` is the sum of the round-trip times of the `received`
/// replies.  The average is their arithmetic mean rounded down to whole
/// microseconds; minimum, maximum and average are all 0 when no reply was
/// received.
pub fn aggregate(sent: u16, received: u16, min_micros: u64, max_micros: u64, sum_micros: u64) -> (s:
    RunStats)
    ensures
        s.sent == sent,
        s.received == received,
        received > 0 ==> s.min_micros == min_micros && s.max_micros == max_micros && s.avg_micros
            == sum_micros as int / received as int,
        received == 0 ==> s.min_micros == 0 && s.max_micros == 0 && s.avg_micros == 0,
{
    if received > 0 {
        RunStats {
            sent,
            received,
            min_micros,
            max_micros,
            avg_micros: sum_micros / (received as u64),
        }
    } else {
        RunStats { sent, received, min_micros: 0, max_micros: 0, avg_micros: 0 }
    }
}

} // verus!
