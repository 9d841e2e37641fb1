//! The supervisor of the node process: one slot that is either empty
//! (stopped) or holds the process that was started (running).
//!
//! Starting and stopping need the operating system, so each is split in two.
//! `begin_start` and `stop_target` decide what is to be asked of the
//! operating system; `finish_start` and `finish_stop` take its answer and
//! make the transition. The node-agent binary is looked for on a start and
//! at no other time. The embedding program keeps the supervisor behind
//! one lock and holds that lock from `begin_start` to `finish_start`, and
//! from `stop_target` to `finish_stop`, so that its calls are serialized.

use vstd::prelude::*;
use crate::error::{LauncherError, LauncherErrorView};
use crate::files::{FilePath, FilePathView};
use crate::locator::{locate, located, Platform};

verus! {

/// What the supervisor reports of its slot. It is computed from the slot on
/// every request and stored nowhere.
#[derive(Debug, Clone, Copy, PartialEq, Eq)]
pub struct NodeStatus {
    pub running: bool,
    pub pid: Option<u32>,
}

impl NodeStatus {
    /// The status that a slot shows: running exactly when it is occupied.
    pub open spec fn of(slot: Option<u32>) -> NodeStatus {
        NodeStatus { running: slot is Some, pid: slot }
    }
}

/// The command line with which the node process is to be created.
#[derive(Debug, Clone, PartialEq, Eq)]
pub struct SpawnRequest {
    pub program: FilePath,
    pub args: Vec<String>,
}

/// Mathematical value of a [`SpawnRequest`].
pub struct SpawnRequestView {
    pub program: FilePathView,
    pub args: Seq<Seq<char>>,
}

impl View for SpawnRequest {
    type V = SpawnRequestView;

    open spec fn view(&self) -> SpawnRequestView {
        SpawnRequestView {
            program: self.program@,
            args: Seq::new(self.args@.len(), |i: int| self.args@[i]@),
        }
    }
}

/// The node-agent's command line: `<program> start --orchestrator <url>`.
pub open spec fn node_invocation(program: FilePathView, orchestrator_url: Seq<char>) -> SpawnRequestView {
    SpawnRequestView {
        program,
        args: seq!["start"@, "--orchestrator"@, orchestrator_url],
    }
}

/// How the attempt to signal the node process ended.
#[derive(Debug, Clone, PartialEq, Eq)]
pub enum SignalOutcome {
    /// The termination signal was delivered.
    Delivered,
    /// The operating system knows no such process: it has exited already.
    NoSuchProcess,
    /// The signal could not be delivered for the reason given.
    Failed(String),
}

/// The pid of the created process, `None` when creating it failed.
pub open spec fn created_pid(spawned: Result<u32, String>) -> Option<u32> {
    match spawned {
        Ok(pid) => Some(pid),
        Err(_) => None,
    }
}

/// Whether a start goes on to process creation: only from the empty slot,
/// and only when a binary was located, that is, when the launcher's
/// directory is known.
pub open spec fn start_admitted(slot: Option<u32>, binary_found: bool) -> bool {
    slot is None && binary_found
}

/// Whether a start call succeeds: it was admitted and the process was
/// created (`spawned` is its pid).
pub open spec fn start_succeeds(slot: Option<u32>, binary_found: bool, spawned: Option<u32>) -> bool {
    start_admitted(slot, binary_found) && spawned is Some
}

/// The slot after a start call: the new process if the call succeeded, the
/// slot as it was otherwise.
pub open spec fn slot_after_start(slot: Option<u32>, binary_found: bool, spawned: Option<u32>) -> Option<u32> {
    if start_succeeds(slot, binary_found, spawned) {
        spawned
    } else {
        slot
    }
}

/// Whether a stop call succeeds: always from the empty slot; from an
/// occupied one unless the signal failed for a reason other than the
/// process being gone.
pub open spec fn stop_succeeds(slot: Option<u32>, signal_failed: bool) -> bool {
    slot is None || !signal_failed
}

/// The slot after a stop call: empty if the call succeeded, the slot as it
/// was otherwise.
pub open spec fn slot_after_stop(slot: Option<u32>, signal_failed: bool) -> Option<u32> {
    if stop_succeeds(slot, signal_failed) {
        None
    } else {
        slot
    }
}

/// Owner of the single slot for the node process.
#[derive(Debug)]
pub struct NodeSupervisor {
    slot: Option<u32>,
}

impl View for NodeSupervisor {
    type V = Option<u32>;

    /// The pid of the owned process, or `None` when stopped.
    closed spec fn view(&self) -> Option<u32> {
        self.slot
    }
}

impl NodeSupervisor {
    /// A supervisor that owns no process.
    pub fn new() -> (node: NodeSupervisor)
        ensures
            node@ is None,
    {
        NodeSupervisor { slot: None }
    }

    /// The current status. It reflects the slot and asks the operating
    /// system nothing.
    pub fn status(&self) -> (status: NodeStatus)
        ensures
            status == NodeStatus::of(self@),
    {
        NodeStatus { running: self.slot.is_some(), pid: self.slot }
    }

    /// First half of a start. With an occupied slot the start is refused
    /// before anything else is looked at. Otherwise the node-agent binary is
    /// located: `launcher_dir` is the directory of the running launcher's
    /// executable (`None` when it cannot be determined) and
    /// `adjacent_exists` says whether the binary beside the launcher
    /// exists. Returns the process to create, or the reason why none is to
    /// be created; the slot is not touched.
    pub fn begin_start(
        &self,
        orchestrator_url: &str,
        launcher_dir: Option<String>,
        adjacent_exists: bool,
        platform: Platform,
    ) -> (request: Result<SpawnRequest, LauncherError>)
        ensures
            request is Ok <==> start_admitted(self@, launcher_dir is Some),
            self@ is Some ==> request is Err && request->Err_0@ == LauncherErrorView::AlreadyRunning,
            self@ is None && launcher_dir is None ==> request is Err && request->Err_0@
                == LauncherErrorView::BinaryNotFound,
            request is Ok ==> request->Ok_0@ == node_invocation(
                located(launcher_dir.deep_view(), adjacent_exists, platform)->Some_0,
                orchestrator_url@,
            ),
    {
        if self.slot.is_some() {
            return Err(LauncherError::AlreadyRunning);
        }
        match locate(launcher_dir, adjacent_exists, platform) {
            None => Err(LauncherError::BinaryNotFound),
            Some(program) => {
                let mut args: Vec<String> = Vec::new();
                args.push("start".to_owned());
                args.push("--orchestrator".to_owned());
                args.push(orchestrator_url.to_owned());
                let request = SpawnRequest { program, args };
                assert(request@.args =~= node_invocation(program@, orchestrator_url@).args);
                Ok(request)
            },
        }
    }

    /// Second half of a start. `spawned` is the pid of the process that was
    /// created for the request of `begin_start`, or the reason why creating
    /// it failed. From the empty slot a created process is taken into the
    /// slot, and a failure leaves the slot empty. An occupied slot is never
    /// overwritten: the call then fails and the slot keeps its process.
    pub fn finish_start(&mut self, spawned: Result<u32, String>) -> (reply: Result<
        NodeStatus,
        LauncherError,
    >)
        ensures
            final(self)@ == slot_after_start(old(self)@, true, created_pid(spawned)),
            reply is Ok <==> start_succeeds(old(self)@, true, created_pid(spawned)),
            reply is Ok ==> reply->Ok_0 == NodeStatus::of(created_pid(spawned)),
            old(self)@ is Some ==> final(self)@ == old(self)@ && reply is Err && reply->Err_0@
                == LauncherErrorView::AlreadyRunning,
            old(self)@ is None && spawned is Err ==> final(self)@ is None && reply is Err
                && reply->Err_0@ == LauncherErrorView::SpawnFailed(spawned->Err_0@),
    {
        if self.slot.is_some() {
            return Err(LauncherError::AlreadyRunning);
        }
        match spawned {
            Ok(pid) => {
                self.slot = Some(pid);
                Ok(NodeStatus { running: true, pid: Some(pid) })
            },
            Err(reason) => Err(LauncherError::SpawnFailed(reason)),
        }
    }

    /// First half of a stop: the process to signal, or `None` when there is
    /// nothing to stop.
    pub fn stop_target(&self) -> (target: Option<u32>)
        ensures
            target == self@,
    {
        self.slot
    }

    /// Second half of a stop. `signal` says how signalling the process of
    /// `stop_target` ended. With an empty slot the call succeeds and changes
    /// nothing, whatever `signal` is. With an occupied slot it empties the
    /// slot, unless the signal could not be delivered to a process that
    /// still exists: then the call fails and the process is still owned.
    /// After `Ok` the embedding program waits for the process to exit and
    /// lets go of its handle.
    pub fn finish_stop(&mut self, signal: SignalOutcome) -> (reply: Result<NodeStatus, LauncherError>)
        ensures
            final(self)@ == slot_after_stop(old(self)@, signal is Failed),
            reply is Ok <==> stop_succeeds(old(self)@, signal is Failed),
            reply is Ok ==> final(self)@ is None && reply->Ok_0 == (NodeStatus { running: false, pid: None }),
            old(self)@ is None ==> reply is Ok,
            reply is Err ==> final(self)@ == old(self)@ && reply->Err_0@ == LauncherErrorView::StopFailed(
                signal->Failed_0@,
            ),
    {
        if self.slot.is_none() {
            return Ok(NodeStatus { running: false, pid: None });
        }
        match signal {
            SignalOutcome::Failed(reason) => Err(LauncherError::StopFailed(reason)),
            _ => {
                self.slot = None;
                Ok(NodeStatus { running: false, pid: None })
            },
        }
    }
}

/// One start or stop call, with what the operating system answered to it.
pub enum Call {
    /// A start: whether a binary was located, and the pid of the created
    /// process (`None` when creating it failed).
    Start { binary_found: bool, spawned: Option<u32> },
    /// A stop: whether signalling failed for a reason other than the process
    /// being gone.
    Stop { signal_failed: bool },
}

/// Whether `call`, made with the slot as given, succeeds.
pub open spec fn call_succeeds(slot: Option<u32>, call: Call) -> bool {
    match call {
        Call::Start { binary_found, spawned } => start_succeeds(slot, binary_found, spawned),
        Call::Stop { signal_failed } => stop_succeeds(slot, signal_failed),
    }
}

/// The slot after `call`, made with the slot as given.
pub open spec fn slot_after(slot: Option<u32>, call: Call) -> Option<u32> {
    match call {
        Call::Start { binary_found, spawned } => slot_after_start(slot, binary_found, spawned),
        Call::Stop { signal_failed } => slot_after_stop(slot, signal_failed),
    }
}

/// The slot of a new supervisor after `calls`, made in order.
pub open spec fn slot_after_all(calls: Seq<Call>) -> Option<u32>
    decreases calls.len(),
{
    if calls.len() == 0 {
        None
    } else {
        slot_after(slot_after_all(calls.drop_last()), calls.last())
    }
}

/// Whether call number `i` of `calls` succeeded.
pub open spec fn succeeded_at(calls: Seq<Call>, i: int) -> bool {
    call_succeeds(slot_after_all(calls.take(i)), calls[i])
}

/// Call number `i` of `calls` is a start that succeeded, and no stop after it
/// succeeded.
pub open spec fn started_for_good(calls: Seq<Call>, i: int) -> bool {
    &&& 0 <= i < calls.len()
    &&& calls[i] is Start
    &&& succeeded_at(calls, i)
    &&& forall|j: int| i < j < calls.len() ==> !(calls[j] is Stop && #[trigger] succeeded_at(calls, j))
}

/// After any sequence of start and stop calls the supervisor is running
/// exactly when some start succeeded and no stop after it did, that is, when
/// the most recent call that succeeded is a start.
pub proof fn lemma_running_iff_last_success_is_start(calls: Seq<Call>)
    ensures
        slot_after_all(calls) is Some <==> exists|i: int| #[trigger] started_for_good(calls, i),
    decreases calls.len(),
{
    if calls.len() > 0 {
        let prefix = calls.drop_last();
        let n = calls.len() - 1;
        lemma_running_iff_last_success_is_start(prefix);
        assert(calls.take(n) =~= prefix);
        assert forall|i: int| 0 <= i < n implies succeeded_at(calls, i) == succeeded_at(prefix, i) by {
            assert(calls.take(i) =~= prefix.take(i));
        }
        if succeeded_at(calls, n) {
            if calls[n] is Start {
                assert(started_for_good(calls, n));
            } else {
                assert forall|i: int| !started_for_good(calls, i) by {
                    if 0 <= i < n && started_for_good(calls, i) {
                        assert(!(calls[n] is Stop && succeeded_at(calls, n)));
                    }
                }
            }
        } else {
            assert forall|i: int| started_for_good(prefix, i) implies started_for_good(calls, i) by {
                assert forall|j: int| i < j < calls.len() implies !(calls[j] is Stop && #[trigger] succeeded_at(
                    calls,
                    j,
                )) by {
                    if j < n {
                        assert(succeeded_at(prefix, j) == succeeded_at(calls, j));
                    }
                }
            }
            assert forall|i: int| started_for_good(calls, i) implies started_for_good(prefix, i) by {
                assert forall|j: int| i < j < prefix.len() implies !(prefix[j] is Stop && #[trigger] succeeded_at(
                    prefix,
                    j,
                )) by {
                    assert(succeeded_at(prefix, j) == succeeded_at(calls, j));
                }
            }
        }
    }
}

} // verus!
