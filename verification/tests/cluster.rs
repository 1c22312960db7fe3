use fleet_supervisor::cluster::{RestartStep, SpawnedWorkerExecutorCluster, StartOutcome};
use fleet_supervisor::FleetError;

fn cluster_of(size: usize, base_http: u16, base_grpc: u16) -> SpawnedWorkerExecutorCluster {
    let pids: Vec<u64> = (0..size as u64).map(|i| 100 + i).collect();
    SpawnedWorkerExecutorCluster::new(size, base_http, base_grpc, pids).unwrap()
}

#[test]
fn fresh_cluster_counts() {
    for n in [0usize, 1, 3, 8] {
        let c = cluster_of(n, 9000, 9100);
        assert_eq!(c.size(), n);
        assert!(c.stopped_indices().is_empty());
        assert_eq!(c.started_indices().len() + c.stopped_indices().len(), n);
        assert_eq!(c.started_indices(), (0..n).collect::<Vec<usize>>());
    }
}

#[test]
fn stop_is_idempotent() {
    let mut c = cluster_of(3, 9000, 9100);
    let first = c.stop(1).unwrap();
    assert_eq!(first, Some(101));
    let stopped_after_first = c.stopped_indices();
    let second = c.stop(1).unwrap();
    assert_eq!(second, None, "a second stop must not owe a second signal");
    assert_eq!(c.stopped_indices(), stopped_after_first);
    assert_eq!(c.stopped_indices(), vec![1]);
}

#[test]
fn start_is_noop_when_never_stopped() {
    let mut c = cluster_of(3, 9000, 9100);
    let first = c.start(2).unwrap();
    assert_eq!(first, StartOutcome::AlreadyStarted);
    let second = c.start(2).unwrap();
    assert_eq!(second, StartOutcome::AlreadyStarted);
    assert!(c.stopped_indices().is_empty());
    assert_eq!(c.started_indices(), vec![0, 1, 2]);
}

#[test]
fn partition_after_any_sequence() {
    let mut c = cluster_of(5, 9000, 9100);
    c.stop(4).unwrap();
    c.stop(1).unwrap();
    c.stop(1).unwrap();
    let outcome = c.start(4).unwrap();
    if let StartOutcome::Respawn { .. } = outcome {
        c.complete_start(4, 204).unwrap();
    }
    c.stop(0).unwrap();
    let started = c.started_indices();
    let stopped = c.stopped_indices();
    assert_eq!(started.len() + stopped.len(), c.size());
    for i in 0..c.size() {
        let in_started = started.contains(&i);
        let in_stopped = stopped.contains(&i);
        assert!(in_started != in_stopped, "index {i} must be in exactly one view");
    }
    assert_eq!(stopped, vec![0, 1]);
    assert_eq!(started, vec![2, 3, 4]);
}

#[test]
fn round_trip_three_members() {
    let mut c = cluster_of(3, 9000, 9100);
    let members = c.to_vec();
    let ports: Vec<(u16, u16)> = members.iter().map(|m| (m.http_port(), m.grpc_port())).collect();
    assert_eq!(ports, vec![(9000, 9100), (9001, 9101), (9002, 9102)]);

    assert_eq!(c.stop(1).unwrap(), Some(101));
    assert_eq!(c.stopped_indices(), vec![1]);
    assert_eq!(c.started_indices(), vec![0, 2]);

    let outcome = c.start(1).unwrap();
    assert_eq!(
        outcome,
        StartOutcome::Respawn { kill_pid: None, http_port: 9001, grpc_port: 9101 },
        "the restart must reuse the original ports"
    );
    assert_eq!(c.stopped_indices(), vec![1], "the mark clears only when the restart completes");
    c.complete_start(1, 250).unwrap();
    assert!(c.stopped_indices().is_empty());
    let member = c.to_vec()[1];
    assert!(member.is_live());
    assert_eq!(member.grpc_port(), 9101);
}

#[test]
fn kill_all_then_teardown() {
    let mut c = cluster_of(3, 9000, 9100);
    let signalled = c.kill_all();
    assert_eq!(signalled, vec![100, 101, 102]);
    let again = c.kill_all();
    assert!(again.is_empty(), "a teardown after kill_all must find nothing to signal");
    assert!(c.stopped_indices().is_empty(), "kill_all must not touch the stopped-set");
}

#[test]
fn teardown_two_members_one_stopped() {
    let mut c = cluster_of(2, 9000, 9100);
    let stop_signal = c.stop(0).unwrap();
    assert_eq!(stop_signal, Some(100));
    let teardown_signals = c.kill_all();
    assert_eq!(teardown_signals, vec![101], "the stopped member was already signalled");
}

#[test]
fn restart_all_preserves_identity() {
    let mut c = cluster_of(2, 9000, 9100);
    c.stop(1).unwrap();
    let steps = c.restart_all();
    assert_eq!(
        steps,
        vec![
            RestartStep { index: 0, kill_pid: Some(100), http_port: 9000, grpc_port: 9100 },
            RestartStep { index: 1, kill_pid: None, http_port: 9001, grpc_port: 9101 },
        ]
    );
    for step in &steps {
        c.attach_process(step.index, 300 + step.index as u64).unwrap();
    }
    assert_eq!(c.stopped_indices(), vec![1], "restart_all must not touch the stopped-set");
    assert!(c.to_vec().iter().all(|m| m.is_live()));
}

#[test]
fn index_out_of_range_is_reported() {
    let mut c = cluster_of(2, 9000, 9100);
    assert_eq!(c.stop(2), Err(FleetError::IndexOutOfRange));
    assert_eq!(c.start(7), Err(FleetError::IndexOutOfRange));
    assert_eq!(c.attach_process(2, 400), Err(FleetError::IndexOutOfRange));
    assert_eq!(c.complete_start(2, 400), Err(FleetError::IndexOutOfRange));
    assert!(c.stopped_indices().is_empty(), "a rejected call must have no partial effect");
}

#[test]
fn port_overflow_rejects_construction() {
    let pids: Vec<u64> = (0..10).collect();
    let r = SpawnedWorkerExecutorCluster::new(10, 65530, 9100, pids);
    assert_eq!(r.err(), Some(FleetError::ConfigurationError));
    let pids: Vec<u64> = (0..10).collect();
    let r = SpawnedWorkerExecutorCluster::new(10, 9000, 65530, pids);
    assert_eq!(r.err(), Some(FleetError::ConfigurationError));
    let pids: Vec<u64> = (0..7).collect();
    assert!(SpawnedWorkerExecutorCluster::new(7, 65529, 9100, pids).is_ok());
}

#[test]
fn failed_start_keeps_index_recorded() {
    let mut c = cluster_of(3, 9000, 9100);
    c.stop(1).unwrap();
    let outcome = c.start(1).unwrap();
    assert_eq!(outcome, StartOutcome::Respawn { kill_pid: None, http_port: 9001, grpc_port: 9101 });
    // The respawn fails before completion: no complete_start happens.
    assert_eq!(c.stopped_indices(), vec![1], "a failed restart must leave the index recorded");
    let retry = c.start(1).unwrap();
    assert_eq!(
        retry,
        StartOutcome::Respawn { kill_pid: None, http_port: 9001, grpc_port: 9101 },
        "a retry must order the respawn again, not report the member started"
    );
    c.complete_start(1, 260).unwrap();
    assert!(c.stopped_indices().is_empty());
    assert!(c.to_vec()[1].is_live());
}

#[test]
fn overlapping_port_ranges_rejected() {
    let pids: Vec<u64> = (0..3).collect();
    let r = SpawnedWorkerExecutorCluster::new(3, 9000, 9001, pids);
    assert_eq!(r.err(), Some(FleetError::ConfigurationError));
    let pids: Vec<u64> = (0..2).collect();
    let r = SpawnedWorkerExecutorCluster::new(2, 9000, 9000, pids);
    assert_eq!(r.err(), Some(FleetError::ConfigurationError), "equal bases would share every port");
    let pids: Vec<u64> = (0..3).collect();
    assert!(SpawnedWorkerExecutorCluster::new(3, 9000, 9003, pids).is_ok());
}
