//! The probe loop, run to its end over a given sequence of probe results.
//!
//! The surrounding program interleaves the session's operations with the
//! real sending and waiting.  `drive_run` is the same loop with the outside
//! work factored out: it takes every probe's result and the point at which
//! cancellation was observed as inputs, and its contract states what any
//! run of the loop leaves in the store — exactly one row per attempted
//! probe, sequence numbers strictly increasing from 0, and exactly one
//! summary row at the end, for a completed run and a cancelled one alike.

use vstd::prelude::*;

use crate::outcome::ResultsStore;
use crate::outcome::RowKind;
use crate::session::MAX_RTT_MICROS;
use crate::session::ProbeSession;
use crate::stats::RunStats;
use crate::validate::RunParameters;

verus! {

/// What one probe attempt came back with: a reply after the given
/// round-trip time, or a timeout or transport error with its detail.
pub enum ProbeReply {
    Reply { rtt_micros: u64 },
    Failed { detail: String },
}

/// The round-trip time a result carries, if any.
pub open spec fn reply_rtt(r: ProbeReply) -> Option<u64> {
    match r {
        ProbeReply::Reply { rtt_micros } => Some(rtt_micros),
        ProbeReply::Failed { .. } => None,
    }
}

/// A result's round-trip time fits the session's bound.
pub open spec fn reply_ok(r: ProbeReply) -> bool {
    r matches ProbeReply::Reply { rtt_micros } ==> rtt_micros <= MAX_RTT_MICROS
}

/// How many probes a run attempts: all `count`, unless cancellation is
/// observed before probe `k` for some `k < count`.
pub open spec fn sent_of(count: u16, cancel_before: Option<u16>) -> int {
    match cancel_before {
        Some(k) => if k < count {
            k as int
        } else {
            count as int
        },
        None => count as int,
    }
}

/// How many of the first `n` results are replies.
pub open spec fn received_of(replies: Seq<ProbeReply>, n: int) -> int
    decreases n,
{
    if n <= 0 {
        0
    } else {
        received_of(replies, n - 1) + (if reply_rtt(replies[n - 1]) is Some {
            1int
        } else {
            0int
        })
    }
}

/// The sum of the round-trip times among the first `n` results.
pub open spec fn rtt_sum_of(replies: Seq<ProbeReply>, n: int) -> int
    decreases n,
{
    if n <= 0 {
        0
    } else {
        rtt_sum_of(replies, n - 1) + (match reply_rtt(replies[n - 1]) {
            Some(m) => m as int,
            None => 0,
        })
    }
}

/// The smallest round-trip time among the first `n` results, if any reply
/// is among them.
pub open spec fn min_rtt_of(replies: Seq<ProbeReply>, n: int) -> Option<int>
    decreases n,
{
    if n <= 0 {
        None
    } else {
        let before = min_rtt_of(replies, n - 1);
        match reply_rtt(replies[n - 1]) {
            None => before,
            Some(m) => match before {
                None => Some(m as int),
                Some(b) => if (m as int) < b {
                    Some(m as int)
                } else {
                    Some(b)
                },
            },
        }
    }
}

/// The largest round-trip time among the first `n` results, if any reply
/// is among them.
pub open spec fn max_rtt_of(replies: Seq<ProbeReply>, n: int) -> Option<int>
    decreases n,
{
    if n <= 0 {
        None
    } else {
        let before = max_rtt_of(replies, n - 1);
        match reply_rtt(replies[n - 1]) {
            None => before,
            Some(m) => match before {
                None => Some(m as int),
                Some(b) => if (m as int) > b {
                    Some(m as int)
                } else {
                    Some(b)
                },
            },
        }
    }
}

proof fn lemma_counts_and_extrema(replies: Seq<ProbeReply>, n: int)
    ensures
        received_of(replies, n) >= 0,
        (received_of(replies, n) == 0) == (min_rtt_of(replies, n) is None),
        (received_of(replies, n) == 0) == (max_rtt_of(replies, n) is None),
    decreases n,
{
    if n > 0 {
        lemma_counts_and_extrema(replies, n - 1);
    }
}

/// Runs one whole probe loop over the given per-probe results.
///
/// Cancellation is modelled by `cancel_before`: `Some(k)` means the signal
/// is observed at the top of iteration `k`, before probe `k` is sent; any
/// `k >= count`, like `None`, means the run completes.  The one timestamp
/// stands in for the clock on every row.
///
/// The contract pins the shape of every run's results: with `s` probes
/// attempted, the store ends with exactly `s + 1` rows — rows `0 .. s`
/// real probes in strictly increasing sequence order, each carrying its
/// result, then exactly one summary row whose statistics count `s` sent,
/// the replies among the first `s` results received, and their mean
/// round-trip time.
pub fn drive_run(
    params: &RunParameters,
    replies: &Vec<ProbeReply>,
    cancel_before: Option<u16>,
    timestamp: &str,
) -> (out: (ResultsStore, RunStats))
    requires
        params.wf(),
        replies@.len() == params.count as int,
        forall|i: int| 0 <= i < replies@.len() ==> reply_ok(#[trigger] replies@[i]),
    ensures
        out.0@.len() == sent_of(params.count, cancel_before) + 1,
        out.1.sent == sent_of(params.count, cancel_before),
        out.1.received == received_of(replies@, sent_of(params.count, cancel_before)),
        forall|i: int|
            0 <= i < sent_of(params.count, cancel_before) ==> (#[trigger] out.0@[i]).kind == (
            RowKind::Probe { sequence: i as u16 }),
        forall|i: int|
            0 <= i < sent_of(params.count, cancel_before) ==> (#[trigger] out.0@[i]).rtt_micros
                == reply_rtt(replies@[i]),
        forall|i: int|
            0 <= i < sent_of(params.count, cancel_before) ==> (#[trigger] out.0@[i]).target@
                == params.target@,
        out.0@.last().kind == (RowKind::Summary { stats: out.1 }),
        out.1.received > 0 ==> out.1.avg_micros == rtt_sum_of(
            replies@,
            sent_of(params.count, cancel_before),
        ) / received_of(replies@, sent_of(params.count, cancel_before)),
        out.1.received > 0 ==> Some(out.1.min_micros as int) == min_rtt_of(
            replies@,
            sent_of(params.count, cancel_before),
        ) && Some(out.1.max_micros as int) == max_rtt_of(
            replies@,
            sent_of(params.count, cancel_before),
        ),
        out.1.received == 0 ==> out.1.avg_micros == 0 && out.1.min_micros == 0 && out.1.max_micros
            == 0,
{
    let mut store = ResultsStore::new();
    let mut session = ProbeSession::new(params);
    let mut cancelled: bool = false;
    while session.next_seq < session.count
        invariant_except_break
            cancelled == false,
        invariant
            session.inv(),
            session.tracks(store@),
            session.phase is Running,
            session.count == params.count,
            session.target@ == params.target@,
            replies@.len() == params.count as int,
            forall|i: int| 0 <= i < replies@.len() ==> reply_ok(#[trigger] replies@[i]),
            session.received as int == received_of(replies@, session.next_seq as int),
            session.sum_micros as int == rtt_sum_of(replies@, session.next_seq as int),
            session.received > 0 ==> Some(session.min_micros as int) == min_rtt_of(
                replies@,
                session.next_seq as int,
            ) && Some(session.max_micros as int) == max_rtt_of(
                replies@,
                session.next_seq as int,
            ),
            forall|i: int|
                0 <= i < session.next_seq ==> (#[trigger] store@[i]).rtt_micros == reply_rtt(
                    replies@[i],
                ),
            cancelled ==> (cancel_before matches Some(k) && k == session.next_seq && k
                < params.count),
            !cancelled ==> (cancel_before matches Some(k) ==> !(k < session.next_seq)),
        ensures
            cancelled == !(session.next_seq == session.count),
            session.next_seq as int == sent_of(params.count, cancel_before),
        decreases session.count - session.next_seq,
    {
        let stop_now = match cancel_before {
            Some(k) => k == session.next_seq,
            None => false,
        };
        if stop_now {
            cancelled = true;
            break;
        }
        let idx = session.next_seq as usize;
        let ghost prev = store@;
        match &replies[idx] {
            ProbeReply::Reply { rtt_micros } => {
                session.record_reply(&mut store, timestamp.to_owned(), *rtt_micros);
            },
            ProbeReply::Failed { detail } => {
                session.record_probe_error(&mut store, timestamp.to_owned(), detail.clone());
            },
        }
        proof {
            lemma_counts_and_extrema(replies@, idx as int);
            assert forall|i: int| 0 <= i < prev.len() implies #[trigger] store@[i] == prev[i] by {
                assert(store@.subrange(0, prev.len() as int)[i] == store@[i]);
            }
            assert(store@[session.next_seq - 1] == store@.last());
            assert(store@.last().rtt_micros == reply_rtt(replies@[idx as int]));
        }
    }
    let ghost snap = session;
    let ghost pre_finish = store@;
    let stats = session.finish(&mut store, timestamp.to_owned(), cancelled);
    proof {
        assert forall|i: int| 0 <= i < pre_finish.len() implies #[trigger] store@[i]
            == pre_finish[i] by {
            assert(store@.subrange(0, pre_finish.len() as int)[i] == store@[i]);
        }
        assert forall|i: int|
            0 <= i < pre_finish.len() implies (#[trigger] store@[i]).kind == (RowKind::Probe {
                sequence: i as u16,
            }) && store@[i].target@ == params.target@ && store@[i].rtt_micros == reply_rtt(
                replies@[i],
            ) by {
            assert(snap.probe_row_ok(pre_finish[i], i));
            assert(store@[i] == pre_finish[i]);
        }
    }
    (store, stats)
}

} // verus!
