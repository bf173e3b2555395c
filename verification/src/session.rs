//! The probe loop's state machine.
//!
//! A session drives one run: it hands out strictly increasing sequence
//! numbers, appends one outcome row per probe attempt to the results store,
//! accumulates the latency counters, and ends in exactly one of the
//! terminal phases.  The caller performs the actual sending and waiting and
//! reports each attempt's result here; the session decides everything else.
//!
//! Once a terminal phase is reached no further rows can be appended: every
//! recording operation demands the `Running` phase.

use vstd::prelude::*;

use crate::outcome::ProbeOutcome;
use crate::outcome::ResultsStore;
use crate::outcome::RowKind;
use crate::outcome::appended_one;
use crate::stats::RunStats;
use crate::stats::aggregate;
use crate::validate::RunParameters;

verus! {

/// Largest round-trip time, in microseconds, that a session accepts
/// (about 8.9 years).  It keeps the latency sum of a full run of 65535
/// probes within 64 bits; the caller clamps anything larger.
pub const MAX_RTT_MICROS: u64 = 0xFFFF_FFFF_FFFF;

/// Where a run stands.  `Failed` is reached only when resolution or
/// transport creation fails before any probe is sent.
#[derive(Clone, Copy, Debug, PartialEq, Eq, Structural)]
pub enum RunPhase {
    Running,
    Completed,
    Cancelled,
    Failed,
}

/// 1 if the row carries a round-trip time, else 0.
pub open spec fn row_received(row: ProbeOutcome) -> int {
    if row.rtt_micros is Some {
        1
    } else {
        0
    }
}

/// How many of the rows carry a round-trip time.
pub open spec fn received_count(rows: Seq<ProbeOutcome>) -> int
    decreases rows.len(),
{
    if rows.len() == 0 {
        0
    } else {
        received_count(rows.drop_last()) + row_received(rows.last())
    }
}

/// The sum of the round-trip times carried by the rows.
pub open spec fn rtt_total(rows: Seq<ProbeOutcome>) -> int
    decreases rows.len(),
{
    if rows.len() == 0 {
        0
    } else {
        rtt_total(rows.drop_last()) + (match rows.last().rtt_micros {
            Some(m) => m as int,
            None => 0,
        })
    }
}

proof fn lemma_counts_push(rows: Seq<ProbeOutcome>, row: ProbeOutcome)
    ensures
        received_count(rows.push(row)) == received_count(rows) + row_received(row),
        rtt_total(rows.push(row)) == rtt_total(rows) + (match row.rtt_micros {
            Some(m) => m as int,
            None => 0,
        }),
{
    assert(rows.push(row).drop_last() =~= rows);
    assert(rows.push(row).last() == row);
}

/// One run of the probe loop.
pub struct ProbeSession {
    /// The originally supplied target string, copied onto every row.
    pub target: String,
    /// How many probes this run sends.
    pub count: u16,
    /// Seconds between consecutive probes.
    pub interval_secs: u64,
    /// Seconds to wait for each reply.
    pub timeout_secs: u64,
    /// Sequence number of the next probe; equals the probes attempted.
    pub next_seq: u16,
    /// Replies received so far.
    pub received: u16,
    /// Sum of the received round-trip times, in microseconds.
    pub sum_micros: u64,
    /// Smallest received round-trip time; 0 while nothing was received.
    pub min_micros: u64,
    /// Largest received round-trip time; 0 while nothing was received.
    pub max_micros: u64,
    /// Where the run stands.
    pub phase: RunPhase,
}

impl ProbeSession {
    /// The session's internal invariant.
    pub open spec fn inv(&self) -> bool {
        &&& 1 <= self.count
        &&& self.next_seq <= self.count
        &&& self.received <= self.next_seq
        &&& self.sum_micros as int <= self.received as int * (MAX_RTT_MICROS as int)
        &&& (self.received == 0 ==> self.sum_micros == 0 && self.min_micros == 0
            && self.max_micros == 0)
        &&& (self.received > 0 ==> self.min_micros <= self.max_micros && self.max_micros
            <= MAX_RTT_MICROS)
    }

    /// Row `i` of the store belongs to this session's run.
    pub open spec fn probe_row_ok(&self, row: ProbeOutcome, i: int) -> bool {
        &&& row.kind == (RowKind::Probe { sequence: i as u16 })
        &&& row.target@ == self.target@
        &&& (row.rtt_micros matches Some(m) ==> m <= MAX_RTT_MICROS)
    }

    /// The store holds exactly this run's rows so far: one row per attempt,
    /// in strictly increasing sequence order, and the latency counters are
    /// the fold of those rows.
    pub open spec fn tracks(&self, rows: Seq<ProbeOutcome>) -> bool {
        &&& rows.len() == self.next_seq as int
        &&& (forall|i: int| 0 <= i < rows.len() ==> self.probe_row_ok(#[trigger] rows[i], i))
        &&& self.received as int == received_count(rows)
        &&& self.sum_micros as int == rtt_total(rows)
    }

    /// Begins a run: no probes attempted yet, counters zero.
    pub fn new(params: &RunParameters) -> (s: ProbeSession)
        requires
            params.wf(),
        ensures
            s.inv(),
            s.tracks(Seq::<ProbeOutcome>::empty()),
            s.phase == RunPhase::Running,
            s.next_seq == 0,
            s.received == 0,
            s.sum_micros == 0,
            s.min_micros == 0,
            s.max_micros == 0,
            s.count == params.count,
            s.target@ == params.target@,
            s.interval_secs == params.interval_secs,
            s.timeout_secs == params.timeout_secs,
    {
        ProbeSession {
            target: params.target.clone(),
            count: params.count,
            interval_secs: params.interval_secs,
            timeout_secs: params.timeout_secs,
            next_seq: 0,
            received: 0,
            sum_micros: 0,
            min_micros: 0,
            max_micros: 0,
            phase: RunPhase::Running,
        }
    }

    /// True while the run is live and probes remain to be sent.
    pub fn wants_probe(&self) -> (r: bool)
        ensures
            r == (self.phase is Running && self.next_seq < self.count),
    {
        match self.phase {
            RunPhase::Running => self.next_seq < self.count,
            _ => false,
        }
    }

    /// Records a successful reply: appends a success row carrying the
    /// round-trip time and updates the latency counters.
    pub fn record_reply(&mut self, store: &mut ResultsStore, timestamp: String, rtt_micros: u64)
        requires
            old(self).inv(),
            old(self).tracks(old(store)@),
            old(self).phase is Running,
            old(self).next_seq < old(self).count,
            rtt_micros <= MAX_RTT_MICROS,
        ensures
            final(self).inv(),
            final(self).tracks(final(store)@),
            final(self).phase == RunPhase::Running,
            final(self).next_seq == old(self).next_seq + 1,
            final(self).received == old(self).received + 1,
            final(self).sum_micros == old(self).sum_micros + rtt_micros,
            final(self).min_micros == (if old(self).received == 0 {
                rtt_micros
            } else if rtt_micros < old(self).min_micros {
                rtt_micros
            } else {
                old(self).min_micros
            }),
            final(self).max_micros == (if old(self).received == 0 {
                rtt_micros
            } else if rtt_micros > old(self).max_micros {
                rtt_micros
            } else {
                old(self).max_micros
            }),
            final(self).count == old(self).count,
            final(self).target@ == old(self).target@,
            final(self).interval_secs == old(self).interval_secs,
            final(self).timeout_secs == old(self).timeout_secs,
            appended_one(old(store)@, final(store)@),
            final(store)@.last().kind == (RowKind::Probe { sequence: old(self).next_seq }),
            final(store)@.last().rtt_micros == Some(rtt_micros),
            final(store)@.last().timestamp@ == timestamp@,
            final(store)@.last().target@ == old(self).target@,
            final(store)@.last().status@ == "reply received"@,
    {
        let row = ProbeOutcome {
            timestamp,
            target: self.target.clone(),
            kind: RowKind::Probe { sequence: self.next_seq },
            rtt_micros: Some(rtt_micros),
            status: String::from_str("reply received"),
        };
        let ghost prev_rows = store@;
        store.push(row);
        proof {
            lemma_counts_push(prev_rows, row);
        }
        if self.received == 0 {
            self.min_micros = rtt_micros;
            self.max_micros = rtt_micros;
        } else {
            if rtt_micros < self.min_micros {
                self.min_micros = rtt_micros;
            }
            if rtt_micros > self.max_micros {
                self.max_micros = rtt_micros;
            }
        }
        self.received = self.received + 1;
        self.sum_micros = self.sum_micros + rtt_micros;
        self.next_seq = self.next_seq + 1;
    }

    /// Records a timed-out or failed probe: appends a failure row carrying
    /// the error detail.  The latency counters are untouched and the run
    /// goes on; a failed probe is never resent.
    pub fn record_probe_error(&mut self, store: &mut ResultsStore, timestamp: String, detail: String)
        requires
            old(self).inv(),
            old(self).tracks(old(store)@),
            old(self).phase is Running,
            old(self).next_seq < old(self).count,
        ensures
            final(self).inv(),
            final(self).tracks(final(store)@),
            final(self).phase == RunPhase::Running,
            final(self).next_seq == old(self).next_seq + 1,
            final(self).received == old(self).received,
            final(self).sum_micros == old(self).sum_micros,
            final(self).min_micros == old(self).min_micros,
            final(self).max_micros == old(self).max_micros,
            final(self).count == old(self).count,
            final(self).target@ == old(self).target@,
            final(self).interval_secs == old(self).interval_secs,
            final(self).timeout_secs == old(self).timeout_secs,
            appended_one(old(store)@, final(store)@),
            final(store)@.last().kind == (RowKind::Probe { sequence: old(self).next_seq }),
            final(store)@.last().rtt_micros is None,
            final(store)@.last().timestamp@ == timestamp@,
            final(store)@.last().target@ == old(self).target@,
            final(store)@.last().status@ == detail@,
    {
        let row = ProbeOutcome {
            timestamp,
            target: self.target.clone(),
            kind: RowKind::Probe { sequence: self.next_seq },
            rtt_micros: None,
            status: detail,
        };
        let ghost prev_rows = store@;
        store.push(row);
        proof {
            lemma_counts_push(prev_rows, row);
        }
        self.next_seq = self.next_seq + 1;
    }

    /// Ends the run, by exhaustion (`cancelled == false`, every probe
    /// attempted) or on a cancellation signal, computes the final
    /// statistics from the accumulated counters and appends the single
    /// summary row.  The average is the arithmetic mean of the recorded
    /// round-trip times, rounded down to whole microseconds, and 0 when
    /// nothing was received.
    pub fn finish(&mut self, store: &mut ResultsStore, timestamp: String, cancelled: bool) -> (stats:
        RunStats)
        requires
            old(self).inv(),
            old(self).tracks(old(store)@),
            old(self).phase is Running,
            !cancelled ==> old(self).next_seq == old(self).count,
        ensures
            cancelled ==> *final(self) == (ProbeSession {
                phase: RunPhase::Cancelled,
                ..*old(self)
            }),
            !cancelled ==> *final(self) == (ProbeSession {
                phase: RunPhase::Completed,
                ..*old(self)
            }),
            stats.sent == old(self).next_seq,
            stats.received == old(self).received,
            old(self).received > 0 ==> stats.min_micros == old(self).min_micros
                && stats.max_micros == old(self).max_micros && stats.avg_micros == old(
                self,
            ).sum_micros as int / old(self).received as int && stats.avg_micros == rtt_total(
                old(store)@,
            ) / received_count(old(store)@),
            old(self).received == 0 ==> stats.min_micros == 0 && stats.max_micros == 0
                && stats.avg_micros == 0,
            appended_one(old(store)@, final(store)@),
            final(store)@.last().kind == (RowKind::Summary { stats: stats }),
            final(store)@.last().rtt_micros is None,
            final(store)@.last().timestamp@ == timestamp@,
            final(store)@.last().target@ == old(self).target@,
            final(store)@.last().status@ == "run summary"@,
    {
        let stats = aggregate(
            self.next_seq,
            self.received,
            self.min_micros,
            self.max_micros,
            self.sum_micros,
        );
        let row = ProbeOutcome {
            timestamp,
            target: self.target.clone(),
            kind: RowKind::Summary { stats },
            rtt_micros: None,
            status: String::from_str("run summary"),
        };
        store.push(row);
        self.phase = if cancelled {
            RunPhase::Cancelled
        } else {
            RunPhase::Completed
        };
        stats
    }

    /// Ends the run before any probe was sent, when resolution or the
    /// creation of the probe transport failed: appends the single synthetic
    /// failure row carrying the error detail and moves to `Failed`.  No
    /// summary row follows.
    pub fn fail(&mut self, store: &mut ResultsStore, timestamp: String, detail: String)
        requires
            old(self).inv(),
            old(self).tracks(old(store)@),
            old(self).phase is Running,
            old(self).next_seq == 0,
        ensures
            *final(self) == (ProbeSession { phase: RunPhase::Failed, ..*old(self) }),
            appended_one(old(store)@, final(store)@),
            final(store)@.len() == 1,
            final(store)@.last().kind == (RowKind::Probe { sequence: 0 }),
            final(store)@.last().rtt_micros is None,
            final(store)@.last().timestamp@ == timestamp@,
            final(store)@.last().target@ == old(self).target@,
            final(store)@.last().status@ == detail@,
    {
        let row = ProbeOutcome {
            timestamp,
            target: self.target.clone(),
            kind: RowKind::Probe { sequence: 0 },
            rtt_micros: None,
            status: detail,
        };
        store.push(row);
        self.phase = RunPhase::Failed;
    }
}

} // verus!
