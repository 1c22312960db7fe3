//! One supervised worker-executor process: its index, its ports, its handle.

use vstd::prelude::*;

use crate::process::ProcessHandle;
use crate::FleetError;

verus! {

/// The mathematical state of one member: its stable position in the cluster,
/// the two ports it was configured with, and the process id its handle still
/// holds, if any.
#[verifier::ext_equal]
pub ghost struct MemberModel {
    pub index: int,
    pub http_port: u16,
    pub grpc_port: u16,
    pub pid: Option<u64>,
}

/// `m` with its process handle consumed.
pub open spec fn member_killed(m: MemberModel) -> MemberModel {
    MemberModel { pid: None, ..m }
}

/// `m` carrying a fresh process under `pid`, on the same ports.
pub open spec fn member_respawned(m: MemberModel, pid: u64) -> MemberModel {
    MemberModel { pid: Some(pid), ..m }
}

/// One member of the fleet.  The member keeps its index and its ports for the
/// whole life of the cluster; only the process behind it is ever replaced.
#[derive(Clone, Copy, Debug)]
pub struct Member {
    index: usize,
    http_port: u16,
    grpc_port: u16,
    handle: ProcessHandle,
}

impl View for Member {
    type V = MemberModel;

    closed spec fn view(&self) -> MemberModel {
        MemberModel {
            index: self.index as int,
            http_port: self.http_port,
            grpc_port: self.grpc_port,
            pid: self.handle@,
        }
    }
}

impl Member {
    /// A member at `index`, listening on the given ports, whose process the
    /// shell has just spawned under `pid`.
    pub fn new(index: usize, http_port: u16, grpc_port: u16, pid: u64) -> (r: Self)
        ensures
            r@ == (MemberModel {
                index: index as int,
                http_port,
                grpc_port,
                pid: Some(pid),
            }),
    {
        Member { index, http_port, grpc_port, handle: ProcessHandle::attached(pid) }
    }

    /// Consume the member's handle; the returned id, if any, is to be
    /// signalled once.  Ports and index are untouched.
    pub fn kill(&mut self) -> (r: Option<u64>)
        ensures
            final(self)@ == member_killed(old(self)@),
            r == old(self)@.pid,
    {
        self.handle.kill()
    }

    /// Put a freshly spawned process behind the member.  The returned id, if
    /// any, belonged to the previous process and is still owed its signal;
    /// ports and index are untouched, so a restarted member keeps its
    /// observable identity.
    pub fn respawn(&mut self, pid: u64) -> (r: Option<u64>)
        ensures
            final(self)@ == member_respawned(old(self)@, pid),
            r == old(self)@.pid,
    {
        let r = self.handle.kill();
        self.handle = ProcessHandle::attached(pid);
        r
    }

    /// The member's stable position in the cluster.
    pub fn index(&self) -> (r: usize)
        ensures
            r as int == self@.index,
    {
        self.index
    }

    /// The HTTP port the member was configured with.
    pub fn http_port(&self) -> (r: u16)
        ensures
            r == self@.http_port,
    {
        self.http_port
    }

    /// The RPC port the member was configured with.
    pub fn grpc_port(&self) -> (r: u16)
        ensures
            r == self@.grpc_port,
    {
        self.grpc_port
    }

    /// Whether the member's handle still holds a process.
    pub fn is_live(&self) -> (r: bool)
        ensures
            r == (self@.pid is Some),
    {
        self.handle.is_live()
    }
}

/// Decide the outcome of one spawn attempt from the facts the shell gathered,
/// in the order the spawn sequence checks them: a missing executable is a
/// configuration error; then a process the operating system refused to create
/// is a spawn failure; then a process that never answered its readiness probe
/// is a startup timeout; otherwise the spawn succeeded and the process id is
/// handed back.
pub fn spawn_outcome(executable_exists: bool, launched: Option<u64>, ready: bool) -> (r: Result<
    u64,
    FleetError,
>)
    ensures
        !executable_exists ==> r == Err::<u64, FleetError>(FleetError::ConfigurationError),
        executable_exists && launched is None ==> r == Err::<u64, FleetError>(
            FleetError::SpawnFailure,
        ),
        executable_exists && launched is Some && !ready ==> r == Err::<u64, FleetError>(
            FleetError::StartupTimeout,
        ),
        executable_exists && launched is Some && ready ==> r == Ok::<u64, FleetError>(launched->0),
{
    if !executable_exists {
        return Err(FleetError::ConfigurationError);
    }
    match launched {
        None => Err(FleetError::SpawnFailure),
        Some(pid) => if ready {
            Ok(pid)
        } else {
            Err(FleetError::StartupTimeout)
        },
    }
}

} // verus!
