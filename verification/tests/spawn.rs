use fleet_supervisor::member::{spawn_outcome, Member};
use fleet_supervisor::process::ProcessHandle;
use fleet_supervisor::FleetError;

#[test]
fn spawn_outcome_missing_executable() {
    assert_eq!(spawn_outcome(false, Some(42), true), Err(FleetError::ConfigurationError));
    assert_eq!(spawn_outcome(false, None, false), Err(FleetError::ConfigurationError));
}

#[test]
fn spawn_outcome_os_refused() {
    assert_eq!(spawn_outcome(true, None, false), Err(FleetError::SpawnFailure));
}

#[test]
fn spawn_outcome_never_ready() {
    assert_eq!(spawn_outcome(true, Some(42), false), Err(FleetError::StartupTimeout));
}

#[test]
fn spawn_outcome_success() {
    assert_eq!(spawn_outcome(true, Some(42), true), Ok(42));
}

#[test]
fn handle_kill_is_consumed_once() {
    let mut handle = ProcessHandle::attached(77);
    assert!(handle.is_live());
    assert_eq!(handle.kill(), Some(77));
    assert!(!handle.is_live());
    assert_eq!(handle.kill(), None, "an already consumed handle owes nothing");
    assert_eq!(handle.pid(), None);
}

#[test]
fn member_respawn_keeps_identity() {
    let mut member = Member::new(2, 9002, 9102, 55);
    assert_eq!(member.kill(), Some(55));
    assert!(!member.is_live());
    assert_eq!(member.respawn(56), None);
    assert!(member.is_live());
    assert_eq!(member.index(), 2);
    assert_eq!(member.http_port(), 9002);
    assert_eq!(member.grpc_port(), 9102);
}
