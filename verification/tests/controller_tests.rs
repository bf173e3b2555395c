use ping_probe::Controller;
use ping_probe::ProbeOutcome;
use ping_probe::ResultsStore;
use ping_probe::RowKind;
use ping_probe::RunStats;
use ping_probe::RunStatus;

fn one_row_store() -> ResultsStore {
    let mut store = ResultsStore::new();
    store.push(ProbeOutcome {
        timestamp: "11:11:11".to_string(),
        target: "127.0.0.1".to_string(),
        kind: RowKind::Probe { sequence: 0 },
        rtt_micros: Some(700),
        status: "reply received".to_string(),
    });
    store
}

#[test]
fn start_spawns_once_and_refuses_while_active() {
    let mut c = Controller::new();
    let p = c.start("127.0.0.1", "3", "1", "2");
    assert!(p.is_some());
    assert!(c.active);
    assert_eq!(c.status, RunStatus::Probing);
    // a second start while a run is active is a no-op, not an error
    let again = c.start("10.0.0.1", "5", "1", "2");
    assert!(again.is_none());
    assert!(c.active);
    assert_eq!(c.status, RunStatus::Probing);
}

#[test]
fn stop_signals_only_an_active_run() {
    let mut c = Controller::new();
    c.start("127.0.0.1", "3", "1", "2").unwrap();
    assert!(c.stop());
    assert!(!c.active);
    assert_eq!(c.status, RunStatus::Stopped);
}

#[test]
fn stopping_twice_equals_stopping_once() {
    let mut c = Controller::new();
    c.start("127.0.0.1", "3", "1", "2").unwrap();

    let mut once = c;
    once.stop();

    let mut twice = c;
    twice.stop();
    let second_signal = twice.stop();

    assert_eq!(once, twice);
    assert!(!second_signal);
}

#[test]
fn stop_without_a_run_changes_nothing() {
    let mut c = Controller::new();
    let before = c;
    let signal = c.stop();
    assert!(!signal);
    assert_eq!(c, before);
    assert_eq!(c.status, RunStatus::Ready);
}

#[test]
fn stop_after_a_finished_run_keeps_its_status() {
    let mut c = Controller::new();
    c.start("127.0.0.1", "3", "1", "2").unwrap();
    c.run_ended(RunStats { sent: 3, received: 2, min_micros: 1, max_micros: 3, avg_micros: 2 });
    let before = c;
    assert!(!c.stop());
    assert_eq!(c, before);
    assert_eq!(c.status, RunStatus::Finished);
}

#[test]
fn start_run_clears_previous_results() {
    let mut c = Controller::new();
    let mut store = one_row_store();
    let p = c.start_run(&mut store, "127.0.0.1", "3", "1", "2");
    assert!(p.is_some());
    assert!(c.active);
    assert_eq!(store.len(), 0);
}

#[test]
fn start_run_keeps_the_store_on_rejection() {
    let mut c = Controller::new();
    let mut store = one_row_store();
    let p = c.start_run(&mut store, "127.0.0.1", "0", "1", "2");
    assert!(p.is_none());
    assert!(!c.active);
    assert_eq!(store.len(), 1);
}

#[test]
fn failed_run_sets_failed_status_and_zero_statistics() {
    let mut c = Controller::new();
    c.start("no-such-host.invalid", "3", "1", "2").unwrap();
    c.run_failed();
    assert!(!c.active);
    assert_eq!(c.status, RunStatus::Failed);
    assert_eq!(c.stats, RunStats { sent: 0, received: 0, min_micros: 0, max_micros: 0, avg_micros: 0 });
}

#[test]
fn clear_is_refused_while_a_run_is_active() {
    let mut c = Controller::new();
    c.start("127.0.0.1", "3", "1", "2").unwrap();
    let mut store = one_row_store();
    assert!(!c.clear(&mut store));
    assert_eq!(store.len(), 1);
}

#[test]
fn clear_empties_the_store_and_zeroes_the_statistics() {
    let mut c = Controller::new();
    c.start("127.0.0.1", "3", "1", "2").unwrap();
    c.run_ended(RunStats { sent: 3, received: 3, min_micros: 1, max_micros: 3, avg_micros: 2 });
    assert_eq!(c.status, RunStatus::Finished);
    assert_eq!(c.stats.sent, 3);

    let mut store = one_row_store();
    assert!(c.clear(&mut store));
    assert_eq!(store.len(), 0);
    assert_eq!(c.status, RunStatus::Ready);
    assert_eq!(c.stats, RunStats { sent: 0, received: 0, min_micros: 0, max_micros: 0, avg_micros: 0 });
}
