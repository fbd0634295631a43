//! The worker supervisor: which backend process is held, when a new one may be
//! started, and how the held one is stopped.
//!
//! The supervisor decides; its host acts. The host spawns the process, reports
//! the outcome, and carries out the stop orders that the supervisor hands back
//! (deliver the signal, then wait until the process has exited).

use crate::signal::{SignalKind, SignalOrder};
use vstd::prelude::*;

verus! {

/// The supervised backend process.
#[derive(Clone, Copy, Debug, PartialEq, Eq, Structural)]
pub struct WorkerHandle {
    /// Process identifier.
    pub pid: u32,
    /// Whether the process leads a process group of its own, so that its
    /// group identifier is `pid`.
    pub isolated: bool,
}

/// How a worker is brought down before it is reaped.
#[derive(Clone, Copy, Debug, PartialEq, Eq, Structural)]
pub enum Termination {
    /// Deliver this signal; it addresses the worker's whole process group.
    Group(SignalOrder),
    /// Stop the single process through the handle that the host holds.
    Direct,
}

/// An order to stop a worker and then wait until process `pid` has exited.
#[derive(Clone, Copy, Debug, PartialEq, Eq, Structural)]
pub struct StopOrder {
    pub pid: u32,
    pub how: Termination,
}

/// What the host reports after it tried to start the worker.
#[derive(Clone, Copy, Debug, PartialEq, Eq, Structural)]
pub enum SpawnOutcome {
    Started { pid: u32, isolated: bool },
    Failed,
}

/// What the supervisor made of a reported spawn.
#[derive(Clone, Copy, Debug, PartialEq, Eq, Structural)]
pub enum SpawnReport {
    /// The new worker is now the supervised one.
    Running(WorkerHandle),
    /// No worker was started; the application goes on without a backend.
    Degraded,
    /// A worker was started although none may be: the supervisor does not
    /// take it, and the host is to carry out the order at once.
    Rejected(StopOrder),
}

impl WorkerHandle {
    /// Whether group-wide signalling can address this worker: it leads a group,
    /// and the negative of its identifier is a signal target that addresses
    /// that group and nothing else. Identifier 0 has no negative, and the
    /// negative of 1 addresses every process, so neither qualifies.
    pub open spec fn group_addressable(self) -> bool {
        self.isolated && 2 <= self.pid <= i32::MAX
    }

    /// The order that stops this worker: a graceful signal to its whole group
    /// where that can be addressed, a direct stop of the one process otherwise.
    pub open spec fn spec_stop_order(self) -> StopOrder {
        StopOrder {
            pid: self.pid,
            how: if self.group_addressable() {
                Termination::Group(
                    SignalOrder { target: (-(self.pid as int)) as i32, kind: SignalKind::Terminate },
                )
            } else {
                Termination::Direct
            },
        }
    }

    /// The order that stops this worker. A group signal in it is graceful and
    /// has a target of -2 or below.
    #[verifier::when_used_as_spec(spec_stop_order)]
    pub fn stop_order(self) -> (order: StopOrder)
        ensures
            order == self.spec_stop_order(),
            order.how matches Termination::Group(signal) ==> signal.target == -(self.pid as int)
                && signal.target <= -2 && signal.kind == SignalKind::Terminate,
    {
        let how = if self.isolated && 2 <= self.pid && self.pid <= 0x7FFF_FFFF {
            let id: i32 = self.pid as i32;
            Termination::Group(SignalOrder { target: -id, kind: SignalKind::Terminate })
        } else {
            Termination::Direct
        };
        StopOrder { pid: self.pid, how }
    }
}

/// The supervisor as contracts see it.
pub struct SupervisorModel {
    /// The worker that is held, if any.
    pub handle: Option<WorkerHandle>,
    /// Whether the supervisor has been shut down.
    pub released: bool,
}

impl SupervisorModel {
    pub open spec fn initial() -> SupervisorModel {
        SupervisorModel { handle: None, released: false }
    }

    /// A worker may be started only while none is held and the supervisor has
    /// not been shut down.
    pub open spec fn may_spawn(self) -> bool {
        self.handle is None && !self.released
    }

    pub open spec fn spawn_report(self, outcome: SpawnOutcome) -> SpawnReport {
        match outcome {
            SpawnOutcome::Started { pid, isolated } => {
                let handle = WorkerHandle { pid, isolated };
                if self.may_spawn() {
                    SpawnReport::Running(handle)
                } else {
                    SpawnReport::Rejected(handle.spec_stop_order())
                }
            },
            SpawnOutcome::Failed => SpawnReport::Degraded,
        }
    }

    pub open spec fn after_spawn(self, outcome: SpawnOutcome) -> SupervisorModel {
        match self.spawn_report(outcome) {
            SpawnReport::Running(handle) => SupervisorModel { handle: Some(handle), ..self },
            _ => self,
        }
    }

    pub open spec fn shutdown_order(self) -> Option<StopOrder> {
        match self.handle {
            Some(handle) => Some(handle.spec_stop_order()),
            None => None,
        }
    }

    pub open spec fn after_shutdown(self) -> SupervisorModel {
        SupervisorModel { handle: None, released: true }
    }
}

/// What can happen to a supervisor.
pub enum SupervisorEvent {
    /// The host reports a spawn.
    Spawn(SpawnOutcome),
    /// The host releases the supervisor.
    Shutdown,
}

impl SupervisorModel {
    pub open spec fn after(self, event: SupervisorEvent) -> SupervisorModel {
        match event {
            SupervisorEvent::Spawn(outcome) => self.after_spawn(outcome),
            SupervisorEvent::Shutdown => self.after_shutdown(),
        }
    }

    /// The supervisor after a history of events, oldest first.
    pub open spec fn after_all(self, events: Seq<SupervisorEvent>) -> SupervisorModel
        decreases events.len(),
    {
        if events.len() == 0 {
            self
        } else {
            self.after_all(events.drop_last()).after(events.last())
        }
    }
}

/// The number of workers under supervision after a history of events that
/// begins with a fresh supervisor, counted from what the supervisor answered:
/// one more for each spawn that it reported as running, one less for each stop
/// order that a shutdown handed out. Rejected workers never count: their stop
/// order comes with the rejection.
pub open spec fn live_workers(events: Seq<SupervisorEvent>) -> int
    decreases events.len(),
{
    if events.len() == 0 {
        0
    } else {
        let before = SupervisorModel::initial().after_all(events.drop_last());
        let change: int = match events.last() {
            SupervisorEvent::Spawn(outcome) => if before.spawn_report(outcome) is Running {
                1
            } else {
                0
            },
            SupervisorEvent::Shutdown => if before.shutdown_order() is Some {
                -1
            } else {
                0
            },
        };
        live_workers(events.drop_last()) + change
    }
}

/// Whatever the order of spawns and shutdowns, at most one worker is under
/// supervision at any time, and it is the one in the slot; once the
/// supervisor has been shut down, none is.
pub proof fn lemma_at_most_one_worker(events: Seq<SupervisorEvent>)
    ensures
        0 <= live_workers(events) <= 1,
        live_workers(events) == 1 <==> SupervisorModel::initial().after_all(events).handle is Some,
        SupervisorModel::initial().after_all(events).released ==> live_workers(events) == 0,
    decreases events.len(),
{
    if events.len() > 0 {
        lemma_at_most_one_worker(events.drop_last());
    }
}

/// A spawn that is reported while a worker is held is rejected: the held
/// worker stays, and the order that comes back stops the newcomer.
pub proof fn lemma_second_spawn_rejected(
    model: SupervisorModel,
    held: WorkerHandle,
    pid: u32,
    isolated: bool,
)
    requires
        model.handle == Some(held),
    ensures
        model.after_spawn(SpawnOutcome::Started { pid, isolated }) == model,
        model.spawn_report(SpawnOutcome::Started { pid, isolated }) == SpawnReport::Rejected(
            (WorkerHandle { pid, isolated }).spec_stop_order(),
        ),
{
}

/// A shutdown leaves no worker under supervision, whatever went before, and
/// the order it hands out names the worker that was held. A second shutdown
/// finds nothing to stop.
pub proof fn lemma_shutdown_releases(events: Seq<SupervisorEvent>)
    ensures
        live_workers(events.push(SupervisorEvent::Shutdown)) == 0,
        ({
            let before = SupervisorModel::initial().after_all(events);
            &&& before.handle matches Some(h) ==> before.shutdown_order() == Some(
                h.spec_stop_order(),
            ) && h.spec_stop_order().pid == h.pid
            &&& before.after_shutdown().shutdown_order() is None
            &&& !before.after_shutdown().may_spawn()
        }),
{
    let after = events.push(SupervisorEvent::Shutdown);
    assert(after.drop_last() =~= events);
    lemma_at_most_one_worker(events);
}

/// Owner of the slot that holds the supervised worker.
pub struct WorkerSupervisor {
    slot: Option<WorkerHandle>,
    released: bool,
}

impl View for WorkerSupervisor {
    type V = SupervisorModel;

    closed spec fn view(&self) -> SupervisorModel {
        SupervisorModel { handle: self.slot, released: self.released }
    }
}

impl WorkerSupervisor {
    /// A supervisor that holds no worker.
    pub fn new() -> (supervisor: WorkerSupervisor)
        ensures
            supervisor@ == SupervisorModel::initial(),
    {
        WorkerSupervisor { slot: None, released: false }
    }

    /// The worker that is held, if any.
    pub fn handle(&self) -> (handle: Option<WorkerHandle>)
        ensures
            handle == self@.handle,
    {
        self.slot
    }

    /// Whether the supervisor has been shut down.
    pub fn is_released(&self) -> (released: bool)
        ensures
            released == self@.released,
    {
        self.released
    }

    /// Whether a worker may be started now.
    pub fn may_spawn(&self) -> (allowed: bool)
        ensures
            allowed == self@.may_spawn(),
    {
        self.slot.is_none() && !self.released
    }

    /// Takes in what the host reports of a spawn. A worker that was started
    /// while one may be becomes the supervised one. One that was started while
    /// another is held, or after shutdown, is rejected: the slot keeps what it
    /// had, and the report carries the order that stops the newcomer. A failed
    /// spawn changes nothing.
    pub fn record_spawn(&mut self, outcome: SpawnOutcome) -> (report: SpawnReport)
        ensures
            report == old(self)@.spawn_report(outcome),
            final(self)@ == old(self)@.after_spawn(outcome),
    {
        match outcome {
            SpawnOutcome::Started { pid, isolated } => {
                let handle = WorkerHandle { pid, isolated };
                if self.may_spawn() {
                    self.slot = Some(handle);
                    SpawnReport::Running(handle)
                } else {
                    SpawnReport::Rejected(handle.stop_order())
                }
            },
            SpawnOutcome::Failed => SpawnReport::Degraded,
        }
    }

    /// Releases the supervisor: takes the worker out of the slot and returns
    /// the order that stops and reaps it, or `None` where the slot was empty.
    /// Afterwards the supervisor holds nothing and accepts no worker, so a
    /// second call returns `None`.
    pub fn shutdown(&mut self) -> (order: Option<StopOrder>)
        ensures
            order == old(self)@.shutdown_order(),
            final(self)@ == old(self)@.after_shutdown(),
    {
        let held = self.slot.take();
        self.released = true;
        match held {
            Some(handle) => Some(handle.stop_order()),
            None => None,
        }
    }
}

} // verus!
