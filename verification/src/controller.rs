//! The run controller: lifecycle of start, stop and clear.
//!
//! The controller tracks whether a run is active independently of the
//! background loop, so a second start is refused without querying the
//! loop.  Stopping is fire-and-forget: it only asks the caller to deliver
//! one cancellation signal, and never waits for the loop to observe it.

use vstd::prelude::*;

use crate::outcome::ResultsStore;
use crate::stats::RunStats;
use crate::validate::RunParameters;
use crate::validate::ValidationError;
use crate::validate::dec_value;
use crate::validate::spec_validate;
use crate::validate::validate_parameters;

verus! {

/// The controller's user-visible state, one variant per status line.
#[derive(Clone, Copy, Debug, PartialEq, Eq, Structural)]
pub enum RunStatus {
    /// Nothing started yet, or the results were cleared.
    Ready,
    /// A run is in progress.
    Probing,
    /// The user stopped the run.
    Stopped,
    /// The run ended on its own and its statistics were adopted.
    Finished,
    /// The run failed before any probe was sent: resolution or transport
    /// creation went wrong; the error's detail stands in the results store.
    Failed,
    /// The last start attempt was refused, with the failing field.
    Rejected { why: ValidationError },
}

/// Owns the run lifecycle for the display layer.
#[derive(Clone, Copy, Debug, PartialEq, Eq, Structural)]
pub struct Controller {
    /// Whether a run is active, tracked here and nowhere else.
    pub active: bool,
    /// What the status line should say.
    pub status: RunStatus,
    /// The most recent run's statistics, zero before any run and after a
    /// clear.
    pub stats: RunStats,
}

/// What `stop` leaves behind: with an active run, no run and a stopped
/// status, statistics untouched; with none, exactly what was there — a
/// stop without a run is a no-op.
pub open spec fn stop_transition(c: Controller) -> Controller {
    if c.active {
        Controller { active: false, status: RunStatus::Stopped, ..c }
    } else {
        c
    }
}

/// Stopping twice leaves exactly what stopping once leaves; a stop never
/// leaves a run active, so the second stop finds none, changes nothing and
/// asks for no second signal; and a stop with no active run leaves the
/// controller exactly as it was.
pub proof fn lemma_stop_idempotent(c: Controller)
    ensures
        stop_transition(stop_transition(c)) == stop_transition(c),
        !stop_transition(c).active,
        !c.active ==> stop_transition(c) == c,
{
}

impl Controller {
    /// A controller with nothing started and all statistics zero.
    pub fn new() -> (c: Controller)
        ensures
            c == (Controller {
                active: false,
                status: RunStatus::Ready,
                stats: RunStats { sent: 0, received: 0, min_micros: 0, max_micros: 0, avg_micros: 0 },
            }),
    {
        Controller {
            active: false,
            status: RunStatus::Ready,
            stats: RunStats::zero(),
        }
    }

    /// Asks to start a run from the four raw input fields.
    ///
    /// While a run is active this is a no-op, not an error.  Otherwise the
    /// fields are validated; on success the returned parameters are handed
    /// to the caller to spawn the probe loop with, and the controller
    /// counts the run active.  On a validation failure no run starts and
    /// the status names the failing field.
    pub fn start(&mut self, target: &str, count: &str, interval: &str, timeout: &str) -> (r: Option<
        RunParameters,
    >)
        ensures
            old(self).active ==> *final(self) == *old(self) && r is None,
            !old(self).active ==> match r {
                Some(p) => {
                    &&& spec_validate(target@, count@, interval@, timeout@) is Ok
                    &&& p.wf()
                    &&& p.target@ == target@
                    &&& p.count == dec_value(count@)
                    &&& p.interval_secs == dec_value(interval@)
                    &&& p.timeout_secs == dec_value(timeout@)
                    &&& *final(self) == (Controller { active: true, status: RunStatus::Probing, ..*old(self) })
                },
                None => {
                    &&& spec_validate(target@, count@, interval@, timeout@) matches Err(e)
                        && *final(self) == (Controller {
                        active: false,
                        status: RunStatus::Rejected { why: e },
                        ..*old(self)
                    })
                },
            },
    {
        if self.active {
            return None;
        }
        match validate_parameters(target, count, interval, timeout) {
            Ok(p) => {
                self.active = true;
                self.status = RunStatus::Probing;
                Some(p)
            },
            Err(e) => {
                self.status = RunStatus::Rejected { why: e };
                None
            },
        }
    }

    /// Asks to start a run, clearing the results store of the previous
    /// run's rows.
    ///
    /// Exactly like `start`, and additionally: when the run is accepted the
    /// store is cleared in full, so every run begins over an empty store;
    /// when it is refused, or a run is already active, the store is left
    /// untouched.
    pub fn start_run(
        &mut self,
        store: &mut ResultsStore,
        target: &str,
        count: &str,
        interval: &str,
        timeout: &str,
    ) -> (r: Option<RunParameters>)
        ensures
            old(self).active ==> *final(self) == *old(self) && r is None && final(store)@ == old(
                store,
            )@,
            !old(self).active ==> match r {
                Some(p) => {
                    &&& spec_validate(target@, count@, interval@, timeout@) is Ok
                    &&& p.wf()
                    &&& p.target@ == target@
                    &&& p.count == dec_value(count@)
                    &&& p.interval_secs == dec_value(interval@)
                    &&& p.timeout_secs == dec_value(timeout@)
                    &&& *final(self) == (Controller { active: true, status: RunStatus::Probing, ..*old(self) })
                    &&& final(store)@.len() == 0
                },
                None => {
                    &&& spec_validate(target@, count@, interval@, timeout@) matches Err(e)
                        && *final(self) == (Controller {
                        active: false,
                        status: RunStatus::Rejected { why: e },
                        ..*old(self)
                    })
                    &&& final(store)@ == old(store)@
                },
            },
    {
        match self.start(target, count, interval, timeout) {
            Some(p) => {
                store.clear();
                Some(p)
            },
            None => None,
        }
    }

    /// Signals cancellation to the active run, if one exists, and counts no
    /// run active any more.  Returns whether a cancellation signal should
    /// be delivered; with no active run nothing changes — a no-op, not an
    /// error.
    pub fn stop(&mut self) -> (signal: bool)
        ensures
            *final(self) == stop_transition(*old(self)),
            signal == old(self).active,
    {
        let signal = self.active;
        if self.active {
            self.active = false;
            self.status = RunStatus::Stopped;
        }
        signal
    }

    /// Adopts the statistics of a run that ended on its own.
    pub fn run_ended(&mut self, stats: RunStats)
        ensures
            *final(self) == (Controller { active: false, status: RunStatus::Finished, stats: stats }),
    {
        self.active = false;
        self.status = RunStatus::Finished;
        self.stats = stats;
    }

    /// Notes a run that failed before any probe was sent (resolution or
    /// transport creation), so the status line reflects the error.  The
    /// run's statistics are replaced wholesale: nothing was sent, nothing
    /// received.
    pub fn run_failed(&mut self)
        ensures
            *final(self) == (Controller {
                active: false,
                status: RunStatus::Failed,
                stats: RunStats { sent: 0, received: 0, min_micros: 0, max_micros: 0, avg_micros: 0 },
            }),
    {
        self.active = false;
        self.status = RunStatus::Failed;
        self.stats = RunStats::zero();
    }

    /// Replaces the results store with empty and resets the displayed
    /// statistics to zero.  Refused while a run is active, so the loop can
    /// never write into a store the user just cleared.
    pub fn clear(&mut self, store: &mut ResultsStore) -> (done: bool)
        ensures
            old(self).active ==> !done && *final(self) == *old(self) && final(store)@ == old(
                store,
            )@,
            !old(self).active ==> done && final(store)@.len() == 0 && *final(self) == (Controller {
                active: false,
                status: RunStatus::Ready,
                stats: RunStats { sent: 0, received: 0, min_micros: 0, max_micros: 0, avg_micros: 0 },
            }),
    {
        if self.active {
            return false;
        }
        store.clear();
        self.status = RunStatus::Ready;
        self.stats = RunStats::zero();
        true
    }
}

} // verus!
