use sshscan::creds::Credential;
use sshscan::scan::total_attempts;
use sshscan::tally::{render_success_line, Tally};
use sshscan::worker::{pacing_delay_ms, Worker, WorkerStatus, PACE_MAX_MS, PACE_MIN_MS};

fn pairs(n: usize) -> Vec<Credential> {
    (0..n)
        .map(|i| Credential { user: format!("user{}", i), pass: format!("pass{}", i) })
        .collect()
}

#[test]
fn worker_hands_out_every_pair_once_in_order() {
    let mut w = Worker::new("198.51.100.7".to_string(), pairs(3));
    assert!(matches!(w.status, WorkerStatus::Idle));
    for i in 0..3 {
        let c = w.next_attempt().expect("a pair should remain");
        assert_eq!(c.user, format!("user{}", i));
        assert_eq!(c.pass, format!("pass{}", i));
        assert!(matches!(w.status, WorkerStatus::Running));
    }
    // The list is exhausted: the unit settles in Done and stays there,
    // whatever the outcomes of the attempts were.
    assert!(w.next_attempt().is_none());
    assert!(w.is_done());
    assert!(w.next_attempt().is_none());
    assert!(w.is_done());
}

#[test]
fn worker_with_no_pairs_is_done_at_once() {
    let mut w = Worker::new("198.51.100.7".to_string(), Vec::new());
    assert!(w.next_attempt().is_none());
    assert!(w.is_done());
}

#[test]
fn success_line_format() {
    assert_eq!(render_success_line("alice", "secret", "10.0.0.1"), "alice:secret@10.0.0.1");
}

#[test]
fn tally_counts_and_records_together() {
    let mut t = Tally::new();
    assert_eq!(t.count, 0);
    let l1 = t.record_success("alice", "secret", "10.0.0.1");
    let l2 = t.record_success("root", "toor", "10.0.0.2");
    assert_eq!(l1, "alice:secret@10.0.0.1");
    assert_eq!(l2, "root:toor@10.0.0.2");
    assert_eq!(t.count, 2);
    assert_eq!(t.records, vec![l1, l2]);
}

#[test]
fn fifty_workers_twenty_successes_each() {
    // The coordinator's tally after 50 workers record 20 successes each:
    // exactly 1000, one counter increment and one record per success.
    let mut t = Tally::new();
    for w in 0..50 {
        for s in 0..20 {
            let host = format!("10.0.{}.{}", w, s);
            t.record_success("user", "pass", &host);
        }
    }
    assert_eq!(t.count, 1000);
    assert_eq!(t.records.len(), 1000);
}

#[test]
fn attempt_budget_is_the_cross_product() {
    assert_eq!(total_attempts(2, 3), Some(6));
    assert_eq!(total_attempts(0, 10), Some(0));
    assert_eq!(total_attempts(usize::MAX, 2), None);
}

#[test]
fn pacing_stays_in_bounds() {
    for _ in 0..200 {
        let d = pacing_delay_ms();
        assert!(PACE_MIN_MS <= d && d < PACE_MAX_MS);
    }
}
