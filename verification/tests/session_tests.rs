use ping_probe::ProbeReply;
use ping_probe::ProbeSession;
use ping_probe::ResultsStore;
use ping_probe::RowKind;
use ping_probe::RunPhase;
use ping_probe::drive_run;
use ping_probe::validate_parameters;

fn reply(rtt_micros: u64) -> ProbeReply {
    ProbeReply::Reply { rtt_micros }
}

fn failed(detail: &str) -> ProbeReply {
    ProbeReply::Failed { detail: detail.to_string() }
}

#[test]
fn completed_run_has_one_row_per_probe_and_one_summary() {
    let params = validate_parameters("127.0.0.1", "3", "1", "2").unwrap();
    let replies = vec![reply(1200), reply(3400), reply(2000)];
    let (store, stats) = drive_run(&params, &replies, None, "12:00:00");
    assert_eq!(store.len(), 4);
    for i in 0..3usize {
        let row = store.get(i);
        assert_eq!(row.kind, RowKind::Probe { sequence: i as u16 });
        assert_eq!(row.target, "127.0.0.1");
        assert_eq!(row.timestamp, "12:00:00");
        assert_eq!(row.status, "reply received");
    }
    assert_eq!(store.get(3).kind, RowKind::Summary { stats });
}

#[test]
fn loopback_scenario_reports_exact_statistics() {
    // three probes at 1.2 ms, 3.4 ms and 2.0 ms
    let params = validate_parameters("127.0.0.1", "3", "1", "2").unwrap();
    let replies = vec![reply(1200), reply(3400), reply(2000)];
    let (store, stats) = drive_run(&params, &replies, None, "12:00:00");
    assert_eq!(stats.sent, 3);
    assert_eq!(stats.received, 3);
    assert_eq!(stats.min_micros, 1200);
    assert_eq!(stats.max_micros, 3400);
    assert_eq!(stats.avg_micros, 2200);
    assert_eq!(stats.loss_tenths(), 0);
    assert_eq!(store.get(0).rtt_micros, Some(1200));
    assert_eq!(store.get(1).rtt_micros, Some(3400));
    assert_eq!(store.get(2).rtt_micros, Some(2000));
}

#[test]
fn cancelling_after_k_probes_leaves_k_rows_and_a_summary() {
    let params = validate_parameters("10.1.2.3", "5", "1", "2").unwrap();
    let replies = vec![reply(900), reply(1100), reply(1000), reply(800), reply(700)];
    let (store, stats) = drive_run(&params, &replies, Some(2), "09:30:00");
    assert_eq!(store.len(), 3);
    assert_eq!(store.get(0).kind, RowKind::Probe { sequence: 0 });
    assert_eq!(store.get(1).kind, RowKind::Probe { sequence: 1 });
    assert_eq!(store.get(2).kind, RowKind::Summary { stats });
    assert_eq!(stats.sent, 2);
    assert_eq!(stats.received, 2);
    assert_eq!(stats.avg_micros, 1000);
}

#[test]
fn cancelling_before_any_probe_reports_zero_sent_and_defined_loss() {
    let params = validate_parameters("10.1.2.3", "4", "1", "2").unwrap();
    let replies = vec![reply(500), reply(500), reply(500), reply(500)];
    let (store, stats) = drive_run(&params, &replies, Some(0), "09:30:00");
    assert_eq!(store.len(), 1);
    assert_eq!(store.get(0).kind, RowKind::Summary { stats });
    assert_eq!(stats.sent, 0);
    assert_eq!(stats.received, 0);
    assert_eq!(stats.min_micros, 0);
    assert_eq!(stats.max_micros, 0);
    assert_eq!(stats.avg_micros, 0);
    assert_eq!(stats.loss_tenths(), 0);
}

#[test]
fn loss_is_lost_over_sent_in_tenths_of_a_percent() {
    let params = validate_parameters("10.9.9.9", "4", "1", "2").unwrap();
    let replies = vec![failed("timed out"), reply(2500), failed("timed out"), failed("timed out")];
    let (store, stats) = drive_run(&params, &replies, None, "23:59:59");
    assert_eq!(stats.sent, 4);
    assert_eq!(stats.received, 1);
    // (4 - 1) / 4 * 100% = 75.0%
    assert_eq!(stats.loss_tenths(), 750);
    assert_eq!(store.get(0).rtt_micros, None);
    assert_eq!(store.get(0).status, "timed out");
    assert_eq!(store.get(1).rtt_micros, Some(2500));
}

#[test]
fn average_is_the_mean_of_received_round_trips_only() {
    let params = validate_parameters("10.9.9.9", "3", "1", "2").unwrap();
    let replies = vec![reply(1000), failed("timed out"), reply(2000)];
    let (_store, stats) = drive_run(&params, &replies, None, "00:00:00");
    assert_eq!(stats.received, 2);
    assert_eq!(stats.avg_micros, 1500);
    assert_eq!(stats.min_micros, 1000);
    assert_eq!(stats.max_micros, 2000);
}

#[test]
fn all_probes_lost_reports_zero_latency_figures() {
    let params = validate_parameters("10.9.9.9", "2", "1", "2").unwrap();
    let replies = vec![failed("timed out"), failed("unreachable")];
    let (_store, stats) = drive_run(&params, &replies, None, "00:00:00");
    assert_eq!(stats.received, 0);
    assert_eq!(stats.min_micros, 0);
    assert_eq!(stats.max_micros, 0);
    assert_eq!(stats.avg_micros, 0);
    assert_eq!(stats.loss_tenths(), 1000);
}

#[test]
fn resolution_failure_leaves_one_row_and_no_summary() {
    let params = validate_parameters("no-such-host.invalid", "4", "1", "2").unwrap();
    let mut store = ResultsStore::new();
    let mut session = ProbeSession::new(&params);
    session.fail(
        &mut store,
        "08:15:00".to_string(),
        "error: no address found for host".to_string(),
    );
    assert_eq!(store.len(), 1);
    let row = store.get(0);
    assert_eq!(row.kind, RowKind::Probe { sequence: 0 });
    assert_eq!(row.rtt_micros, None);
    assert_eq!(row.target, "no-such-host.invalid");
    assert_eq!(row.status, "error: no address found for host");
    assert_eq!(session.phase, RunPhase::Failed);
    assert!(!session.wants_probe());
}

#[test]
fn session_steps_mirror_the_driven_loop() {
    let params = validate_parameters("192.168.0.1", "2", "1", "2").unwrap();
    let mut store = ResultsStore::new();
    let mut session = ProbeSession::new(&params);
    assert!(session.wants_probe());
    session.record_reply(&mut store, "10:00:00".to_string(), 4200);
    assert!(session.wants_probe());
    session.record_probe_error(&mut store, "10:00:01".to_string(), "timed out".to_string());
    assert!(!session.wants_probe());
    let stats = session.finish(&mut store, "10:00:02".to_string(), false);
    assert_eq!(session.phase, RunPhase::Completed);
    assert_eq!(store.len(), 3);
    assert_eq!(store.get(2).kind, RowKind::Summary { stats });
    assert_eq!(store.get(2).status, "run summary");
    assert_eq!(stats.sent, 2);
    assert_eq!(stats.received, 1);
    assert_eq!(stats.min_micros, 4200);
    assert_eq!(stats.max_micros, 4200);
    assert_eq!(stats.avg_micros, 4200);
    assert_eq!(stats.loss_tenths(), 500);
}

#[test]
fn cancelled_session_finishes_into_cancelled_phase() {
    let params = validate_parameters("192.168.0.1", "3", "1", "2").unwrap();
    let mut store = ResultsStore::new();
    let mut session = ProbeSession::new(&params);
    session.record_reply(&mut store, "10:00:00".to_string(), 1000);
    let stats = session.finish(&mut store, "10:00:01".to_string(), true);
    assert_eq!(session.phase, RunPhase::Cancelled);
    assert_eq!(stats.sent, 1);
    assert_eq!(stats.received, 1);
    assert_eq!(store.len(), 2);
    assert!(!session.wants_probe());
}
