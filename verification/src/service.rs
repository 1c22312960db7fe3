//! The companion worker-service process: three listeners, an idempotent
//! kill, and a shared-versus-per-call RPC client policy.

use vstd::prelude::*;

use crate::process::ProcessHandle;
use crate::FleetError;

verus! {

/// An RPC endpoint a client is bound to: the service's host is always the
/// local one, so the port identifies it.  A client is bound to the port, not
/// to a particular process instance, which is why a cached client stays valid
/// across a restart on the same port.
#[derive(Clone, Copy, Debug, PartialEq, Eq, Structural)]
pub struct RpcEndpoint {
    pub port: u16,
}

/// How a `client()` call is to be served.
#[derive(Clone, Copy, Debug, PartialEq, Eq, Structural)]
pub enum ClientPlan {
    /// The service was built with a shared client: hand out the one cached
    /// endpoint.
    UseShared(RpcEndpoint),
    /// The service was built without one: dial a fresh client against the
    /// given endpoint for this call alone.
    DialFresh(RpcEndpoint),
}

/// The mathematical state of the service: its three ports, the process id
/// its handle still holds, and the cached client endpoint if it was built
/// with one.
#[verifier::ext_equal]
pub ghost struct ServiceModel {
    pub http_port: u16,
    pub grpc_port: u16,
    pub custom_request_port: u16,
    pub pid: Option<u64>,
    pub shared_client: Option<RpcEndpoint>,
}

/// The companion worker-service process, spawned once per session.  It
/// listens on three independent ports; its kill is safe to call any number
/// of times because the handle is consumed on the first; and its RPC client
/// is either built once at spawn time and shared, or dialled fresh per call.
pub struct SpawnedWorkerService {
    http_port: u16,
    grpc_port: u16,
    custom_request_port: u16,
    handle: ProcessHandle,
    client: Option<RpcEndpoint>,
}

impl View for SpawnedWorkerService {
    type V = ServiceModel;

    closed spec fn view(&self) -> ServiceModel {
        ServiceModel {
            http_port: self.http_port,
            grpc_port: self.grpc_port,
            custom_request_port: self.custom_request_port,
            pid: self.handle@,
            shared_client: self.client,
        }
    }
}

impl SpawnedWorkerService {
    /// A cached client, where there is one, is bound to the service's own
    /// RPC port.
    pub open spec fn wf(self) -> bool {
        self@.shared_client matches Some(e) ==> e.port == self@.grpc_port
    }

    /// Assemble the service around the process the shell has spawned under
    /// `pid`, on the given three ports.  With `shared_client` one client is
    /// bound to the RPC port now and handed out on every `client()` call;
    /// without it every call dials its own.
    pub fn new(
        http_port: u16,
        grpc_port: u16,
        custom_request_port: u16,
        pid: u64,
        shared_client: bool,
    ) -> (r: Self)
        ensures
            r@ == (ServiceModel {
                http_port,
                grpc_port,
                custom_request_port,
                pid: Some(pid),
                shared_client: if shared_client {
                    Some(RpcEndpoint { port: grpc_port })
                } else {
                    None
                },
            }),
            r.wf(),
    {
        Self::new_base(http_port, grpc_port, custom_request_port, pid, shared_client)
    }

    /// The assembly behind `new`, shared by every way of building the
    /// environment the process was launched with.
    pub fn new_base(
        http_port: u16,
        grpc_port: u16,
        custom_request_port: u16,
        pid: u64,
        shared_client: bool,
    ) -> (r: Self)
        ensures
            r@ == (ServiceModel {
                http_port,
                grpc_port,
                custom_request_port,
                pid: Some(pid),
                shared_client: if shared_client {
                    Some(RpcEndpoint { port: grpc_port })
                } else {
                    None
                },
            }),
            r.wf(),
    {
        SpawnedWorkerService {
            http_port,
            grpc_port,
            custom_request_port,
            handle: ProcessHandle::attached(pid),
            client: if shared_client {
                Some(RpcEndpoint { port: grpc_port })
            } else {
                None
            },
        }
    }

    /// Consume the handle; the returned id, if any, is owed exactly one
    /// termination signal.  Ports and client policy are untouched, and a
    /// second call — from teardown, or racing with an explicit kill — finds
    /// the handle empty and owes nothing.
    pub fn blocking_kill(&mut self) -> (r: Option<u64>)
        ensures
            final(self)@ == (ServiceModel { pid: None, ..old(self)@ }),
            r == old(self)@.pid,
    {
        self.handle.kill()
    }

    /// The kill the teardown path uses: the same consuming, idempotent kill.
    pub fn kill(&mut self) -> (r: Option<u64>)
        ensures
            final(self)@ == (ServiceModel { pid: None, ..old(self)@ }),
            r == old(self)@.pid,
    {
        self.blocking_kill()
    }

    /// How to serve a client request: the cached endpoint when the service
    /// was built with a shared client, otherwise an order to dial fresh.
    /// Either way the endpoint is the service's RPC port.
    pub fn client(&self) -> (r: ClientPlan)
        requires
            self.wf(),
        ensures
            self@.shared_client is Some ==> r == ClientPlan::UseShared(
                RpcEndpoint { port: self@.grpc_port },
            ),
            self@.shared_client is None ==> r == ClientPlan::DialFresh(
                RpcEndpoint { port: self@.grpc_port },
            ),
    {
        match self.client {
            Some(e) => ClientPlan::UseShared(e),
            None => ClientPlan::DialFresh(RpcEndpoint { port: self.grpc_port }),
        }
    }

    /// The host every member and service listens on.
    pub fn private_host(&self) -> (r: String)
        ensures
            r@ == "localhost"@,
    {
        String::from_str("localhost")
    }

    /// The HTTP port the service was configured with.
    pub fn private_http_port(&self) -> (r: u16)
        ensures
            r == self@.http_port,
    {
        self.http_port
    }

    /// The RPC port the service was configured with.
    pub fn private_grpc_port(&self) -> (r: u16)
        ensures
            r == self@.grpc_port,
    {
        self.grpc_port
    }

    /// The custom-request port the service was configured with.
    pub fn private_custom_request_port(&self) -> (r: u16)
        ensures
            r == self@.custom_request_port,
    {
        self.custom_request_port
    }
}

/// Turn the outcome of dialling a fresh client into what the caller of
/// `client()` sees: a constructed client, or the construction error — it is
/// surfaced, never swallowed, and the service stays usable for a later
/// retry.
pub fn client_from_dial(dialed: Option<RpcEndpoint>) -> (r: Result<RpcEndpoint, FleetError>)
    ensures
        dialed matches Some(e) ==> r == Ok::<RpcEndpoint, FleetError>(e),
        dialed is None ==> r == Err::<RpcEndpoint, FleetError>(FleetError::ClientConstructionError),
{
    match dialed {
        Some(e) => Ok(e),
        None => Err(FleetError::ClientConstructionError),
    }
}

} // verus!
