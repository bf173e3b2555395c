//! Outcome rows and the append-only results store.
//!
//! One row is appended per probe attempt, and one synthetic summary row per
//! run.  A summary row is marked by its own variant tag rather than by a
//! reserved sequence number, so it can never collide with a real probe.

use vstd::prelude::*;

use crate::stats::RunStats;

verus! {

/// What a row describes: one real probe, or the run's summary.
#[derive(Clone, Copy, Debug, PartialEq, Eq, Structural)]
pub enum RowKind {
    /// A real probe attempt; `sequence` starts at 0 and increases by one.
    Probe { sequence: u16 },
    /// The single synthetic row appended when a run ends, carrying the
    /// aggregate statistics of the run.
    Summary { stats: RunStats },
}

/// One record in the results store.
pub struct ProbeOutcome {
    /// Wall-clock time of the attempt, already rendered for display.
    pub timestamp: String,
    /// The originally supplied target string, not the resolved address.
    pub target: String,
    /// Probe sequence number, or the summary tag.
    pub kind: RowKind,
    /// Round-trip time in microseconds; present only on a successful reply.
    pub rtt_micros: Option<u64>,
    /// Human-readable outcome description.
    pub status: String,
}

/// The append-only sequence of outcome rows shared with the display layer.
///
/// The store is the single piece of state both sides touch: the probe loop
/// appends, the display layer reads, and the controller clears it in full
/// before a new run.  The caller guards each operation with one lock.
pub struct ResultsStore {
    pub rows: Vec<ProbeOutcome>,
}

impl View for ResultsStore {
    type V = Seq<ProbeOutcome>;

    open spec fn view(&self) -> Seq<ProbeOutcome> {
        self.rows@
    }
}

/// `new_rows` is `old_rows` with exactly one row appended at the end.
pub open spec fn appended_one(old_rows: Seq<ProbeOutcome>, new_rows: Seq<ProbeOutcome>) -> bool {
    &&& new_rows.len() == old_rows.len() + 1
    &&& new_rows.subrange(0, old_rows.len() as int) =~= old_rows
}

impl ResultsStore {
    /// An empty store.
    pub fn new() -> (s: ResultsStore)
        ensures
            s@.len() == 0,
    {
        ResultsStore { rows: Vec::new() }
    }

    /// Number of rows currently held.
    pub fn len(&self) -> (n: usize)
        ensures
            n == self@.len(),
    {
        self.rows.len()
    }

    /// Read one row for display.
    pub fn get(&self, i: usize) -> (row: &ProbeOutcome)
        requires
            i < self@.len(),
        ensures
            *row == self@[i as int],
    {
        &self.rows[i]
    }

    /// Removes every row; the store is replaced in full, never partially.
    pub fn clear(&mut self)
        ensures
            final(self)@.len() == 0,
    {
        self.rows.clear();
    }

    /// Appends one row at the end.
    pub fn push(&mut self, row: ProbeOutcome)
        ensures
            final(self)@ == old(self)@.push(row),
            appended_one(old(self)@, final(self)@),
            final(self)@.last() == row,
    {
        self.rows.push(row);
        proof {
            assert(self@.subrange(0, old(self)@.len() as int) =~= old(self)@);
        }
    }
}

} // verus!
