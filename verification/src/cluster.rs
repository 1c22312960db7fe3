//! The fleet cluster: an ordered, fixed-size collection of members with a
//! stopped-set, per-member and cluster-wide lifecycle operations, and the
//! invariant that the started and the stopped indices always partition the
//! index range.

use vstd::prelude::*;
use vstd::pervasive::VecAdditionalExecFns;
use vstd::set_lib::set_int_range;

use crate::member::{member_killed, member_respawned, Member, MemberModel};
use crate::FleetError;

verus! {

/// The mathematical state of a cluster: the members in index order and, for
/// each index, whether it is administratively stopped.
#[verifier::ext_equal]
pub ghost struct ClusterModel {
    pub members: Seq<MemberModel>,
    pub stopped: Seq<bool>,
}

/// Well-formedness: one stopped-mark per member, and each member knows its
/// own position.
pub open spec fn cluster_wf(c: ClusterModel) -> bool {
    &&& c.stopped.len() == c.members.len()
    &&& forall|i: int| 0 <= i < c.members.len() ==> (#[trigger] c.members[i]).index == i
}

/// The state of a freshly constructed cluster of `size` members: member `i`
/// listens on `base_http_port + i` and `base_grpc_port + i`, runs as process
/// `pids[i]`, and no index is stopped.
pub open spec fn spec_new_cluster(
    size: int,
    base_http_port: u16,
    base_grpc_port: u16,
    pids: Seq<u64>,
) -> ClusterModel {
    ClusterModel {
        members: Seq::new(
            size as nat,
            |i: int|
                MemberModel {
                    index: i,
                    http_port: (base_http_port + i) as u16,
                    grpc_port: (base_grpc_port + i) as u16,
                    pid: Some(pids[i]),
                },
        ),
        stopped: Seq::new(size as nat, |i: int| false),
    }
}

/// The port configuration a cluster of `size` members can be built from:
/// every derived port fits in a port number and the two derived ranges are
/// disjoint, so no two listeners of the cluster ever share a port.
pub open spec fn ports_available(size: int, base_http_port: u16, base_grpc_port: u16) -> bool {
    &&& base_http_port + size <= 65536
    &&& base_grpc_port + size <= 65536
    &&& (base_http_port + size <= base_grpc_port || base_grpc_port + size <= base_http_port)
}

/// `stop(i)`: when `i` is in range and not yet stopped, consume the member's
/// handle and mark the index; otherwise change nothing.
pub open spec fn spec_stop(c: ClusterModel, i: int) -> ClusterModel {
    if 0 <= i < c.members.len() && c.stopped.len() == c.members.len() && !c.stopped[i] {
        ClusterModel {
            members: c.members.update(i, member_killed(c.members[i])),
            stopped: c.stopped.update(i, true),
        }
    } else {
        c
    }
}

/// `start(i)`: when `i` is in range and stopped, consume the member's handle
/// and order the respawn; otherwise change nothing.  The stopped-mark stays
/// set: only a completed restart — `complete_start(i)`, after the fresh
/// process passed its readiness wait — clears it, so a restart that fails
/// underway leaves the index recorded as stopped.
pub open spec fn spec_start(c: ClusterModel, i: int) -> ClusterModel {
    if 0 <= i < c.members.len() && c.stopped.len() == c.members.len() && c.stopped[i] {
        ClusterModel {
            members: c.members.update(i, member_killed(c.members[i])),
            stopped: c.stopped,
        }
    } else {
        c
    }
}

/// `complete_start(i)`: put the fresh process behind member `i` and clear
/// its stopped-mark — only now does the index read as started again.
pub open spec fn spec_complete_start(c: ClusterModel, i: int, pid: u64) -> ClusterModel {
    ClusterModel {
        members: c.members.update(i, member_respawned(c.members[i], pid)),
        stopped: c.stopped.update(i, false),
    }
}

/// `kill_all`: every handle is consumed; the stopped-set is deliberately left
/// alone.
pub open spec fn spec_kill_all(c: ClusterModel) -> ClusterModel {
    ClusterModel {
        members: c.members.map_values(|m: MemberModel| member_killed(m)),
        stopped: c.stopped,
    }
}

/// Attach a fresh process to member `i`, on its unchanged ports.
pub open spec fn spec_attach(c: ClusterModel, i: int, pid: u64) -> ClusterModel {
    ClusterModel {
        members: c.members.update(i, member_respawned(c.members[i], pid)),
        stopped: c.stopped,
    }
}

/// The process ids still held by the members, in index order: exactly what
/// one teardown pass owes the operating system.
pub open spec fn live_pids(members: Seq<MemberModel>) -> Seq<u64>
    decreases members.len(),
{
    if members.len() == 0 {
        Seq::<u64>::empty()
    } else {
        match members.last().pid {
            Some(p) => live_pids(members.drop_last()).push(p),
            None => live_pids(members.drop_last()),
        }
    }
}

/// How many indices carry the mark `want`.
pub open spec fn count_marked(s: Seq<bool>, want: bool) -> int
    decreases s.len(),
{
    if s.len() == 0 {
        0
    } else {
        count_marked(s.drop_last(), want) + (if s.last() == want {
            1int
        } else {
            0int
        })
    }
}

/// The indices the cluster reports as stopped.
pub open spec fn spec_stopped_set(c: ClusterModel) -> Set<int> {
    Set::new(|i: int| 0 <= i < c.stopped.len() && c.stopped[i])
}

/// The indices the cluster reports as started.
pub open spec fn spec_started_set(c: ClusterModel) -> Set<int> {
    Set::new(|i: int| 0 <= i < c.stopped.len() && !c.stopped[i])
}

/// What one member's restart asks of the shell: signal `kill_pid` if there is
/// one, spawn a fresh process on the member's unchanged ports, attach it, and
/// wait for readiness.
#[derive(Clone, Copy, Debug, PartialEq, Eq)]
pub struct RestartStep {
    pub index: usize,
    pub kill_pid: Option<u64>,
    pub http_port: u16,
    pub grpc_port: u16,
}

/// What `start` asks of the shell.
#[derive(Clone, Copy, Debug, PartialEq, Eq)]
pub enum StartOutcome {
    /// The index was stopped and is now administratively started again:
    /// signal `kill_pid` if there is one, spawn on the given ports, attach
    /// the fresh process, and wait for readiness.
    Respawn { kill_pid: Option<u64>, http_port: u16, grpc_port: u16 },
    /// The index was not stopped: starting it again is a no-op.
    AlreadyStarted,
}

/// A fixed-size cluster of supervised worker-executor processes with
/// per-member lifecycle control.  The cluster owns its members' handles and
/// the stopped-set; the shell around the library performs the spawns, signals
/// and readiness waits the cluster decides on.
pub struct SpawnedWorkerExecutorCluster {
    members: Vec<Member>,
    stopped: Vec<bool>,
}

impl View for SpawnedWorkerExecutorCluster {
    type V = ClusterModel;

    closed spec fn view(&self) -> ClusterModel {
        ClusterModel {
            members: self.members@.map_values(|m: Member| m@),
            stopped: self.stopped@,
        }
    }
}

impl SpawnedWorkerExecutorCluster {
    /// Assemble a cluster of `size` members whose processes the shell has
    /// already spawned, member `i` under `pids[i]`.  Ports are derived as
    /// `base_port + i`; if any derived port would not fit in a port number,
    /// or the two port ranges overlap — ports must be unique per cluster
    /// instance — the whole construction is refused, so no partially
    /// configured cluster is ever handed back.
    pub fn new(size: usize, base_http_port: u16, base_grpc_port: u16, pids: Vec<u64>) -> (r:
        Result<Self, FleetError>)
        requires
            pids@.len() == size,
        ensures
            r is Ok <==> ports_available(size as int, base_http_port, base_grpc_port),
            r is Err ==> r == Err::<Self, FleetError>(FleetError::ConfigurationError),
            r matches Ok(c) ==> c@ == spec_new_cluster(
                size as int,
                base_http_port,
                base_grpc_port,
                pids@,
            ) && cluster_wf(c@),
    {
        if size > 65536 {
            return Err(FleetError::ConfigurationError);
        }
        if (base_http_port as u64) + (size as u64) > 65536 || (base_grpc_port as u64) + (size
            as u64) > 65536 {
            return Err(FleetError::ConfigurationError);
        }
        if (base_http_port as u64) + (size as u64) > (base_grpc_port as u64) && (base_grpc_port
            as u64) + (size as u64) > (base_http_port as u64) {
            return Err(FleetError::ConfigurationError);
        }
        let ghost target = spec_new_cluster(size as int, base_http_port, base_grpc_port, pids@);
        let mut members: Vec<Member> = Vec::new();
        let mut stopped: Vec<bool> = Vec::new();
        let mut i: usize = 0;
        while i < size
            invariant
                i <= size,
                size <= 65536,
                pids@.len() == size,
                base_http_port + size <= 65536,
                base_grpc_port + size <= 65536,
                members@.len() == i,
                stopped@.len() == i,
                target == spec_new_cluster(size as int, base_http_port, base_grpc_port, pids@),
                forall|j: int| 0 <= j < i ==> (#[trigger] members@[j])@ == target.members[j],
                forall|j: int| 0 <= j < i ==> (#[trigger] stopped@[j]) == false,
            decreases size - i,
        {
            let http_port: u16 = base_http_port + (i as u16);
            let grpc_port: u16 = base_grpc_port + (i as u16);
            let m = Member::new(i, http_port, grpc_port, pids[i]);
            members.push(m);
            stopped.push(false);
            i = i + 1;
        }
        let c = SpawnedWorkerExecutorCluster { members, stopped };
        proof {
            assert(c@.members =~= target.members);
            assert(c@.stopped =~= target.stopped);
            assert(c@ =~= target);
        }
        Ok(c)
    }

    /// The configured member count, constant for the cluster's lifetime.
    pub fn size(&self) -> (r: usize)
        ensures
            r == self@.members.len(),
    {
        self.members.len()
    }

    /// Consume every member's handle, stopped or not, and hand back the
    /// process ids that are owed a termination signal — each exactly once, in
    /// index order.  The stopped-set is deliberately untouched: this is the
    /// teardown primitive, not a bookkeeping operation.
    pub fn kill_all(&mut self) -> (r: Vec<u64>)
        ensures
            final(self)@ == spec_kill_all(old(self)@),
            cluster_wf(old(self)@) ==> cluster_wf(final(self)@),
            r@ == live_pids(old(self)@.members),
    {
        let mut r: Vec<u64> = Vec::new();
        let n = self.members.len();
        let mut i: usize = 0;
        while i < n
            invariant
                i <= n,
                n == self.members@.len(),
                self.members@.len() == old(self).members@.len(),
                self.stopped@ == old(self).stopped@,
                forall|j: int| 0 <= j < i ==> (#[trigger] self.members@[j])@ == member_killed(
                    old(self).members@[j]@,
                ),
                forall|j: int| i <= j < n ==> (#[trigger] self.members@[j]) == old(
                    self,
                ).members@[j],
                r@ == live_pids(old(self)@.members.take(i as int)),
            decreases n - i,
        {
            let mut m = self.members[i];
            let pid_opt = m.kill();
            self.members.set(i, m);
            match pid_opt {
                Some(p) => r.push(p),
                None => {},
            }
            proof {
                let ms = old(self)@.members;
                assert(ms.take(i + 1).drop_last() =~= ms.take(i as int));
                assert(ms.take(i + 1).last() == ms[i as int]);
                assert(ms[i as int] == old(self).members@[i as int]@);
                assert(r@ == live_pids(ms.take(i + 1)));
            }
            i = i + 1;
        }
        proof {
            assert(old(self)@.members.take(n as int) =~= old(self)@.members);
            assert(final(self)@.members =~= spec_kill_all(old(self)@).members);
            assert(final(self)@ =~= spec_kill_all(old(self)@));
        }
        r
    }

    /// Consume every member's handle and hand back, per member, what its
    /// restart asks of the shell: the id to signal, and the unchanged ports
    /// to respawn and re-probe on.  Ports, indices and the stopped-set are
    /// untouched, so the cluster keeps its observable identity across a full
    /// restart.
    pub fn restart_all(&mut self) -> (r: Vec<RestartStep>)
        ensures
            final(self)@ == spec_kill_all(old(self)@),
            cluster_wf(old(self)@) ==> cluster_wf(final(self)@),
            r@.len() == old(self)@.members.len(),
            forall|j: int|
                0 <= j < r@.len() ==> (#[trigger] r@[j]) == (RestartStep {
                    index: j as usize,
                    kill_pid: old(self)@.members[j].pid,
                    http_port: old(self)@.members[j].http_port,
                    grpc_port: old(self)@.members[j].grpc_port,
                }),
    {
        let mut r: Vec<RestartStep> = Vec::new();
        let n = self.members.len();
        let mut i: usize = 0;
        while i < n
            invariant
                i <= n,
                n == self.members@.len(),
                self.members@.len() == old(self).members@.len(),
                self.stopped@ == old(self).stopped@,
                forall|j: int| 0 <= j < i ==> (#[trigger] self.members@[j])@ == member_killed(
                    old(self).members@[j]@,
                ),
                forall|j: int| i <= j < n ==> (#[trigger] self.members@[j]) == old(
                    self,
                ).members@[j],
                r@.len() == i,
                forall|j: int|
                    0 <= j < i ==> (#[trigger] r@[j]) == (RestartStep {
                        index: j as usize,
                        kill_pid: old(self)@.members[j].pid,
                        http_port: old(self)@.members[j].http_port,
                        grpc_port: old(self)@.members[j].grpc_port,
                    }),
            decreases n - i,
        {
            let mut m = self.members[i];
            let kill_pid = m.kill();
            let http_port = m.http_port();
            let grpc_port = m.grpc_port();
            self.members.set(i, m);
            r.push(RestartStep { index: i, kill_pid, http_port, grpc_port });
            i = i + 1;
        }
        proof {
            assert(final(self)@.members =~= spec_kill_all(old(self)@).members);
            assert(final(self)@ =~= spec_kill_all(old(self)@));
        }
        r
    }

    /// Stop one member: when `index` is in range and not yet stopped, its
    /// handle is consumed — the returned id, if any, is owed one signal — and
    /// the index is marked stopped.  Stopping a stopped index changes nothing
    /// and owes nothing, so a second `stop` can never produce a second
    /// signal.
    pub fn stop(&mut self, index: usize) -> (r: Result<Option<u64>, FleetError>)
        requires
            cluster_wf(old(self)@),
        ensures
            cluster_wf(final(self)@),
            index >= old(self)@.members.len() ==> r == Err::<Option<u64>, FleetError>(
                FleetError::IndexOutOfRange,
            ) && *final(self) == *old(self),
            index < old(self)@.members.len() ==> final(self)@ == spec_stop(
                old(self)@,
                index as int,
            ),
            index < old(self)@.members.len() && old(self)@.stopped[index as int] ==> r == Ok::<
                Option<u64>,
                FleetError,
            >(None),
            index < old(self)@.members.len() && !old(self)@.stopped[index as int] ==> r == Ok::<
                Option<u64>,
                FleetError,
            >(old(self)@.members[index as int].pid),
    {
        if index >= self.members.len() {
            return Err(FleetError::IndexOutOfRange);
        }
        if self.stopped[index] {
            return Ok(None);
        }
        let mut m = self.members[index];
        let pid_opt = m.kill();
        self.members.set(index, m);
        self.stopped.set(index, true);
        proof {
            assert(final(self)@.members =~= spec_stop(old(self)@, index as int).members);
            assert(final(self)@ =~= spec_stop(old(self)@, index as int));
        }
        Ok(pid_opt)
    }

    /// Start one member: when `index` is in range and stopped, the shell is
    /// asked to respawn the member on its original ports.  The stopped-mark
    /// is deliberately not cleared here: only `complete_start`, called once
    /// the fresh process has passed its readiness wait, clears it, so a
    /// restart that fails underway leaves the index recorded as stopped and
    /// a later `start` may retry it.  Starting an index that is not stopped
    /// changes nothing.
    pub fn start(&mut self, index: usize) -> (r: Result<StartOutcome, FleetError>)
        requires
            cluster_wf(old(self)@),
        ensures
            cluster_wf(final(self)@),
            index >= old(self)@.members.len() ==> r == Err::<StartOutcome, FleetError>(
                FleetError::IndexOutOfRange,
            ) && *final(self) == *old(self),
            index < old(self)@.members.len() ==> final(self)@ == spec_start(
                old(self)@,
                index as int,
            ),
            index < old(self)@.members.len() && !old(self)@.stopped[index as int] ==> r == Ok::<
                StartOutcome,
                FleetError,
            >(StartOutcome::AlreadyStarted) && *final(self) == *old(self),
            index < old(self)@.members.len() && old(self)@.stopped[index as int] ==> r == Ok::<
                StartOutcome,
                FleetError,
            >(
                StartOutcome::Respawn {
                    kill_pid: old(self)@.members[index as int].pid,
                    http_port: old(self)@.members[index as int].http_port,
                    grpc_port: old(self)@.members[index as int].grpc_port,
                },
            ),
    {
        if index >= self.members.len() {
            return Err(FleetError::IndexOutOfRange);
        }
        if !self.stopped[index] {
            return Ok(StartOutcome::AlreadyStarted);
        }
        let mut m = self.members[index];
        let kill_pid = m.kill();
        let http_port = m.http_port();
        let grpc_port = m.grpc_port();
        self.members.set(index, m);
        proof {
            assert(final(self)@.members =~= spec_start(old(self)@, index as int).members);
            assert(final(self)@ =~= spec_start(old(self)@, index as int));
        }
        Ok(StartOutcome::Respawn { kill_pid, http_port, grpc_port })
    }

    /// Complete a `start`: put the fresh, ready process behind member
    /// `index` and clear its stopped-mark — only now does the index read as
    /// started again.  The returned id, if any, belonged to a process the
    /// slot still held and is owed its signal.
    pub fn complete_start(&mut self, index: usize, pid: u64) -> (r: Result<Option<u64>, FleetError>)
        requires
            cluster_wf(old(self)@),
        ensures
            cluster_wf(final(self)@),
            index >= old(self)@.members.len() ==> r == Err::<Option<u64>, FleetError>(
                FleetError::IndexOutOfRange,
            ) && *final(self) == *old(self),
            index < old(self)@.members.len() ==> final(self)@ == spec_complete_start(
                old(self)@,
                index as int,
                pid,
            ) && r == Ok::<Option<u64>, FleetError>(old(self)@.members[index as int].pid),
    {
        if index >= self.members.len() {
            return Err(FleetError::IndexOutOfRange);
        }
        let mut m = self.members[index];
        let previous = m.respawn(pid);
        self.members.set(index, m);
        self.stopped.set(index, false);
        proof {
            assert(final(self)@.members =~= spec_complete_start(
                old(self)@,
                index as int,
                pid,
            ).members);
            assert(final(self)@ =~= spec_complete_start(old(self)@, index as int, pid));
        }
        Ok(previous)
    }

    /// Attach a process the shell has just spawned to member `index`, on the
    /// member's unchanged ports, leaving the stopped-set alone — this is the
    /// completion of a `restart_all` step, which never alters the marks.
    /// The returned id, if any, belonged to a process the slot still held
    /// and is owed its signal.
    pub fn attach_process(&mut self, index: usize, pid: u64) -> (r: Result<Option<u64>, FleetError>)
        ensures
            cluster_wf(old(self)@) ==> cluster_wf(final(self)@),
            index >= old(self)@.members.len() ==> r == Err::<Option<u64>, FleetError>(
                FleetError::IndexOutOfRange,
            ) && *final(self) == *old(self),
            index < old(self)@.members.len() ==> final(self)@ == spec_attach(
                old(self)@,
                index as int,
                pid,
            ) && r == Ok::<Option<u64>, FleetError>(old(self)@.members[index as int].pid),
    {
        if index >= self.members.len() {
            return Err(FleetError::IndexOutOfRange);
        }
        let mut m = self.members[index];
        let previous = m.respawn(pid);
        self.members.set(index, m);
        proof {
            assert(final(self)@.members =~= spec_attach(old(self)@, index as int, pid).members);
            assert(final(self)@ =~= spec_attach(old(self)@, index as int, pid));
        }
        Ok(previous)
    }

    /// Copies of all members, in index order, for collaborators that need
    /// per-member access.  The copies carry their own handles: consuming a
    /// copy's handle changes neither the cluster's bookkeeping nor what its
    /// teardown owes.  A caller that signals a copied process id on its own
    /// acts outside the cluster's surface, and squaring that with reality is
    /// the caller's responsibility.
    pub fn to_vec(&self) -> (r: Vec<Member>)
        ensures
            r@.len() == self@.members.len(),
            forall|j: int| 0 <= j < r@.len() ==> (#[trigger] r@[j])@ == self@.members[j],
    {
        let mut r: Vec<Member> = Vec::new();
        let n = self.members.len();
        let mut i: usize = 0;
        while i < n
            invariant
                i <= n,
                n == self.members@.len(),
                r@.len() == i,
                forall|j: int| 0 <= j < i ==> (#[trigger] r@[j])@ == self@.members[j],
            decreases n - i,
        {
            r.push(self.members[i]);
            i = i + 1;
        }
        r
    }

    /// Snapshot of the stopped indices, strictly ascending: exactly those
    /// `i < size` whose stopped-mark is set, and as many as the marks count.
    pub fn stopped_indices(&self) -> (r: Vec<usize>)
        ensures
            forall|j: int|
                0 <= j < r@.len() ==> (#[trigger] r@[j]) < self@.stopped.len()
                    && self@.stopped[r@[j] as int],
            forall|i: int|
                0 <= i < self@.stopped.len() && self@.stopped[i] ==> r@.contains(i as usize),
            forall|j1: int, j2: int| 0 <= j1 < j2 < r@.len() ==> r@[j1] < r@[j2],
            r@.len() == count_marked(self@.stopped, true),
    {
        let mut r: Vec<usize> = Vec::new();
        let n = self.stopped.len();
        let mut i: usize = 0;
        while i < n
            invariant
                i <= n,
                n == self.stopped@.len(),
                forall|j: int|
                    0 <= j < r@.len() ==> (#[trigger] r@[j]) < i && self@.stopped[r@[j] as int],
                forall|k: int| 0 <= k < i && self@.stopped[k] ==> r@.contains(k as usize),
                forall|j1: int, j2: int| 0 <= j1 < j2 < r@.len() ==> r@[j1] < r@[j2],
                r@.len() == count_marked(self@.stopped.take(i as int), true),
            decreases n - i,
        {
            let ghost prev = r@;
            if self.stopped[i] {
                r.push(i);
            }
            proof {
                let s = self@.stopped;
                assert(s.take(i + 1).drop_last() =~= s.take(i as int));
                assert(s.take(i + 1).last() == s[i as int]);
                assert(r@.len() == count_marked(s.take(i + 1), true));
                assert forall|k: int| 0 <= k < i + 1 && s[k] implies r@.contains(k as usize) by {
                    if s[i as int] && k == i {
                        assert(r@[r@.len() - 1] == i as usize);
                    } else {
                        assert(prev.contains(k as usize));
                        let idx = choose|idx: int|
                            0 <= idx < prev.len() && prev[idx] == k as usize;
                        assert(r@[idx] == k as usize);
                    }
                }
            }
            i = i + 1;
        }
        proof {
            assert(self@.stopped.take(n as int) =~= self@.stopped);
        }
        r
    }

    /// Snapshot of the started indices, strictly ascending: exactly those
    /// `i < size` whose stopped-mark is clear — the complement of
    /// `stopped_indices` within `[0, size)`.
    pub fn started_indices(&self) -> (r: Vec<usize>)
        ensures
            forall|j: int|
                0 <= j < r@.len() ==> (#[trigger] r@[j]) < self@.stopped.len()
                    && !self@.stopped[r@[j] as int],
            forall|i: int|
                0 <= i < self@.stopped.len() && !self@.stopped[i] ==> r@.contains(i as usize),
            forall|j1: int, j2: int| 0 <= j1 < j2 < r@.len() ==> r@[j1] < r@[j2],
            r@.len() == count_marked(self@.stopped, false),
    {
        let mut r: Vec<usize> = Vec::new();
        let n = self.stopped.len();
        let mut i: usize = 0;
        while i < n
            invariant
                i <= n,
                n == self.stopped@.len(),
                forall|j: int|
                    0 <= j < r@.len() ==> (#[trigger] r@[j]) < i && !self@.stopped[r@[j] as int],
                forall|k: int| 0 <= k < i && !self@.stopped[k] ==> r@.contains(k as usize),
                forall|j1: int, j2: int| 0 <= j1 < j2 < r@.len() ==> r@[j1] < r@[j2],
                r@.len() == count_marked(self@.stopped.take(i as int), false),
            decreases n - i,
        {
            let ghost prev = r@;
            if !self.stopped[i] {
                r.push(i);
            }
            proof {
                let s = self@.stopped;
                assert(s.take(i + 1).drop_last() =~= s.take(i as int));
                assert(s.take(i + 1).last() == s[i as int]);
                assert(r@.len() == count_marked(s.take(i + 1), false));
                assert forall|k: int| 0 <= k < i + 1 && !s[k] implies r@.contains(k as usize) by {
                    if !s[i as int] && k == i {
                        assert(r@[r@.len() - 1] == i as usize);
                    } else {
                        assert(prev.contains(k as usize));
                        let idx = choose|idx: int|
                            0 <= idx < prev.len() && prev[idx] == k as usize;
                        assert(r@[idx] == k as usize);
                    }
                }
            }
            i = i + 1;
        }
        proof {
            assert(self@.stopped.take(n as int) =~= self@.stopped);
        }
        r
    }
}

/// Counting the set and the clear marks covers every index: the lengths of
/// the two snapshots always add up to the cluster size.
pub proof fn lemma_count_marked_sum(s: Seq<bool>)
    ensures
        count_marked(s, true) + count_marked(s, false) == s.len(),
    decreases s.len(),
{
    if s.len() > 0 {
        lemma_count_marked_sum(s.drop_last());
    }
}

/// A sequence without the mark `want` counts zero of it.
pub proof fn lemma_count_marked_absent(s: Seq<bool>, want: bool)
    requires
        forall|i: int| 0 <= i < s.len() ==> s[i] != want,
    ensures
        count_marked(s, want) == 0,
    decreases s.len(),
{
    if s.len() > 0 {
        assert forall|i: int| 0 <= i < s.drop_last().len() implies s.drop_last()[i] != want by {
            assert(s.drop_last()[i] == s[i]);
        }
        lemma_count_marked_absent(s.drop_last(), want);
    }
}

/// Immediately after construction a cluster of any size `n >= 0` is well
/// formed, reports `n` members, counts no stopped index, and counts all `n`
/// indices as started.
pub proof fn lemma_fresh_cluster(size: int, base_http_port: u16, base_grpc_port: u16, pids: Seq<
    u64,
>)
    requires
        0 <= size,
    ensures
        cluster_wf(spec_new_cluster(size, base_http_port, base_grpc_port, pids)),
        spec_new_cluster(size, base_http_port, base_grpc_port, pids).members.len() == size,
        count_marked(spec_new_cluster(size, base_http_port, base_grpc_port, pids).stopped, true)
            == 0,
        count_marked(spec_new_cluster(size, base_http_port, base_grpc_port, pids).stopped, false)
            == size,
{
    let c = spec_new_cluster(size, base_http_port, base_grpc_port, pids);
    lemma_count_marked_absent(c.stopped, true);
    lemma_count_marked_sum(c.stopped);
}

/// In a cluster built from an available port configuration every port is
/// unique: no two members share an HTTP port, no two share an RPC port, and
/// no HTTP port of one member is the RPC port of another.
pub proof fn lemma_fresh_cluster_ports_unique(
    size: int,
    base_http_port: u16,
    base_grpc_port: u16,
    pids: Seq<u64>,
)
    requires
        0 <= size,
        ports_available(size, base_http_port, base_grpc_port),
    ensures
        ({
            let members = spec_new_cluster(size, base_http_port, base_grpc_port, pids).members;
            &&& forall|i: int, j: int|
                0 <= i < size && 0 <= j < size && i != j ==> #[trigger] members[i].http_port
                    != #[trigger] members[j].http_port
            &&& forall|i: int, j: int|
                0 <= i < size && 0 <= j < size && i != j ==> #[trigger] members[i].grpc_port
                    != #[trigger] members[j].grpc_port
            &&& forall|i: int, j: int|
                0 <= i < size && 0 <= j < size ==> #[trigger] members[i].http_port
                    != #[trigger] members[j].grpc_port
        }),
{
    let members = spec_new_cluster(size, base_http_port, base_grpc_port, pids).members;
    assert forall|i: int| 0 <= i < size implies (#[trigger] members[i]).http_port
        == base_http_port + i && members[i].grpc_port == base_grpc_port + i by {}
}

/// In every well-formed state — that is, after any sequence of lifecycle
/// calls — the started and the stopped indices partition `[0, n)`: they are
/// disjoint, together they cover the whole range, and their counts add up to
/// `n`.  No index is ever reported in both or in neither.
pub proof fn lemma_partition(c: ClusterModel)
    requires
        cluster_wf(c),
    ensures
        spec_started_set(c).disjoint(spec_stopped_set(c)),
        spec_started_set(c).union(spec_stopped_set(c)) == set_int_range(0, c.members.len() as int),
        count_marked(c.stopped, true) + count_marked(c.stopped, false) == c.members.len(),
{
    assert(spec_started_set(c).union(spec_stopped_set(c)) =~= set_int_range(
        0,
        c.members.len() as int,
    ));
    lemma_count_marked_sum(c.stopped);
}

/// Stopping the same index twice has the same observable effect as stopping
/// it once.
pub proof fn lemma_stop_idempotent(c: ClusterModel, i: int)
    ensures
        spec_stop(spec_stop(c, i), i) == spec_stop(c, i),
{
    if 0 <= i < c.members.len() && c.stopped.len() == c.members.len() && !c.stopped[i] {
        assert(spec_stop(c, i).stopped[i]);
    }
}

/// Starting an index that is not stopped changes nothing.
pub proof fn lemma_start_noop(c: ClusterModel, i: int)
    requires
        !(0 <= i < c.stopped.len() && c.stopped[i]),
    ensures
        spec_start(c, i) == c,
{
}

/// Starting the same index twice has the same observable effect on the
/// cluster's state as starting it once.
pub proof fn lemma_start_idempotent(c: ClusterModel, i: int)
    ensures
        spec_start(spec_start(c, i), i) == spec_start(c, i),
{
    if 0 <= i < c.members.len() && c.stopped.len() == c.members.len() && c.stopped[i] {
        assert(spec_start(spec_start(c, i), i).members =~= spec_start(c, i).members);
        assert(spec_start(spec_start(c, i), i) =~= spec_start(c, i));
    }
}

/// Ordering a respawn does not clear the stopped-mark: a restart that fails
/// before its completion leaves the index recorded as stopped, so the
/// bookkeeping is never corrupted by a failed readiness wait and a later
/// `start` may retry the index.
pub proof fn lemma_failed_start_stays_recorded(c: ClusterModel, i: int)
    requires
        cluster_wf(c),
        0 <= i < c.members.len(),
        c.stopped[i],
    ensures
        cluster_wf(spec_start(c, i)),
        spec_start(c, i).stopped[i],
{
}

/// After `stop(i)`, then `start(i)`, then the completed restart, the index
/// is started again and the member runs as the fresh process on its
/// original ports at its original position: a restart replaces the process,
/// never the member's identity.
pub proof fn lemma_stop_start_round_trip(c: ClusterModel, i: int, pid: u64)
    requires
        cluster_wf(c),
        0 <= i < c.members.len(),
    ensures
        ({
            let done = spec_complete_start(spec_start(spec_stop(c, i), i), i, pid);
            &&& cluster_wf(done)
            &&& !done.stopped[i]
            &&& done.members[i].pid == Some(pid)
            &&& done.members[i].http_port == c.members[i].http_port
            &&& done.members[i].grpc_port == c.members[i].grpc_port
            &&& done.members[i].index == c.members[i].index
        }),
{
}

/// A teardown after `kill_all` finds nothing left to signal: consuming every
/// handle twice equals consuming it once, the second pass owes no process a
/// signal, and the stopped-set is untouched both times.
pub proof fn lemma_kill_all_idempotent(c: ClusterModel)
    ensures
        spec_kill_all(spec_kill_all(c)) == spec_kill_all(c),
        live_pids(spec_kill_all(c).members) == Seq::<u64>::empty(),
        spec_kill_all(c).stopped == c.stopped,
{
    assert(spec_kill_all(spec_kill_all(c)).members =~= spec_kill_all(c).members);
    assert(spec_kill_all(spec_kill_all(c)) =~= spec_kill_all(c));
    assert forall|i: int|
        0 <= i < spec_kill_all(c).members.len() implies (#[trigger] spec_kill_all(
        c,
    ).members[i]).pid is None by {}
    lemma_live_pids_absent(spec_kill_all(c).members);
}

/// Members without a live process contribute nothing to a teardown pass.
pub proof fn lemma_live_pids_absent(members: Seq<MemberModel>)
    requires
        forall|i: int| 0 <= i < members.len() ==> (#[trigger] members[i]).pid is None,
    ensures
        live_pids(members) == Seq::<u64>::empty(),
    decreases members.len(),
{
    if members.len() > 0 {
        assert forall|i: int|
            0 <= i < members.drop_last().len() implies (#[trigger] members.drop_last()[i]).pid
            is None by {
            assert(members.drop_last()[i] == members[i]);
        }
        lemma_live_pids_absent(members.drop_last());
    }
}

} // verus!
