//! A verified probing engine for a bounded series of ICMP echo probes.
//!
//! The engine validates run parameters, chooses a network address for the
//! target, drives a fixed-cadence probe loop with cancellation, stores one
//! outcome row per probe in an append-only results store, and folds the
//! outcomes into summary statistics.  Everything here works on plain values;
//! the surrounding program supplies timestamps, probe replies and the
//! cancellation signal, and renders the store.

mod controller;
mod engine;
mod outcome;
mod resolve;
mod session;
mod stats;
mod validate;

pub use controller::Controller;
pub use controller::RunStatus;
pub use controller::lemma_stop_idempotent;
pub use controller::stop_transition;
pub use engine::ProbeReply;
pub use engine::drive_run;
pub use outcome::ProbeOutcome;
pub use outcome::ResultsStore;
pub use outcome::RowKind;
pub use resolve::HostAddress;
pub use resolve::ResolutionError;
pub use resolve::choose_address;
pub use resolve::parse_ipv4_literal;
pub use session::MAX_RTT_MICROS;
pub use session::ProbeSession;
pub use session::RunPhase;
pub use stats::RunStats;
pub use stats::aggregate;
pub use validate::RunParameters;
pub use validate::ValidationError;
pub use validate::parse_decimal;
pub use validate::validate_parameters;
