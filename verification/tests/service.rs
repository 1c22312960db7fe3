use fleet_supervisor::service::{client_from_dial, ClientPlan, RpcEndpoint, SpawnedWorkerService};
use fleet_supervisor::FleetError;

#[test]
fn shared_client_is_cached_once() {
    let service = SpawnedWorkerService::new(8082, 9092, 9093, 500, true);
    assert_eq!(service.client(), ClientPlan::UseShared(RpcEndpoint { port: 9092 }));
    assert_eq!(service.client(), ClientPlan::UseShared(RpcEndpoint { port: 9092 }));
}

#[test]
fn per_call_client_dials_fresh() {
    let service = SpawnedWorkerService::new(8082, 9092, 9093, 500, false);
    assert_eq!(service.client(), ClientPlan::DialFresh(RpcEndpoint { port: 9092 }));
    assert_eq!(client_from_dial(Some(RpcEndpoint { port: 9092 })), Ok(RpcEndpoint { port: 9092 }));
    assert_eq!(client_from_dial(None), Err(FleetError::ClientConstructionError));
}

#[test]
fn service_ports_and_host() {
    let service = SpawnedWorkerService::new_base(8082, 9092, 9093, 500, false);
    assert_eq!(service.private_host(), "localhost");
    assert_eq!(service.private_http_port(), 8082);
    assert_eq!(service.private_grpc_port(), 9092);
    assert_eq!(service.private_custom_request_port(), 9093);
}

#[test]
fn service_kill_is_idempotent() {
    let mut service = SpawnedWorkerService::new(8082, 9092, 9093, 500, true);
    assert_eq!(service.blocking_kill(), Some(500));
    assert_eq!(service.kill(), None, "the handle is consumed on the first kill");
    assert_eq!(
        service.client(),
        ClientPlan::UseShared(RpcEndpoint { port: 9092 }),
        "the cached client is bound to the port, not the process instance"
    );
}
