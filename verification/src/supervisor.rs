//! The executable supervisor. It owns the shared configuration and the
//! worker slots, tells its driver what to do next, and takes each outcome
//! that the driver reports. Threads, channels and the clock stay with the
//! driver.

use vstd::prelude::*;
use crate::model::{Model, Stage};
use crate::protocol::{
    Action, Event, Probe, SpawnOutcome, StartFault, SupervisorError, WorkerId, WorkerSlot,
    POLL_INTERVAL_MS,
};

verus! {

/// What a reported event led to: something to log or to fail with, and the
/// next thing to do. No action is left once the supervisor has stopped.
#[derive(Debug, PartialEq, Eq)]
pub struct Step<E> {
    pub report: Option<SupervisorError<E>>,
    pub action: Option<Action>,
}

/// The slots and where the supervisor stands with them.
struct Pool<R> {
    workers: Vec<WorkerSlot<R>>,
    target: usize,
    stage: Stage,
}

/// Supervisor of a pool of workers, over a configuration handle `C` and
/// the receiving end `R` of a liveness channel. A supervisor is well-formed
/// at all times, so that none of its functions asks anything of the caller.
pub struct Supervisor<C, R> {
    config: C,
    pool: Pool<R>,
}

impl<C, R> View for Supervisor<C, R> {
    type V = Model<C, R>;

    closed spec fn view(&self) -> Model<C, R> {
        self.pool.model(self.config)
    }
}

impl<R> Pool<R> {
    /// The state of a supervisor that holds this pool and `config`.
    spec fn model<C>(self, config: C) -> Model<C, R> {
        Model {
            config,
            slots: self.workers@,
            target: self.target as nat,
            stage: self.stage,
        }
    }

    /// The pool of a supervisor that was not started.
    fn idle() -> (pool: Self)
        ensures
            pool.workers@ == Seq::<WorkerSlot<R>>::empty(),
            pool.target == 0,
            pool.stage == Stage::Idle,
    {
        Pool { workers: Vec::new(), target: 0, stage: Stage::Idle }
    }

    /// Begins the bring-up, unless the pool was started before.
    fn start<C>(&mut self, Ghost(config): Ghost<C>, worker_count: usize)
        requires
            old(self).model(config).wf(),
        ensures
            final(self).model(config) == old(self).model(config).started(worker_count as nat),
            final(self).model(config).wf(),
    {
        if let Stage::Idle = self.stage {
            self.target = worker_count;
            self.stage = if worker_count > 0 {
                Stage::Starting { next: 0 }
            } else {
                Stage::Sleeping
            };
        }
    }

    /// Takes one event, in bring-up or while monitoring.
    fn step<C, E>(&mut self, Ghost(config): Ghost<C>, event: Event<R, E>) -> (report: Option<
        SupervisorError<E>,
    >)
        requires
            old(self).model(config).wf(),
        ensures
            final(self).model(config) == old(self).model(config).next(event),
            final(self).model(config).wf(),
            report == old(self).model(config).report(event),
    {
        match self.stage {
            Stage::Starting { next } => self.init(Ghost(config), next, event),
            Stage::Probing { .. } | Stage::Respawning { .. } | Stage::Sleeping => self.run(
                Ghost(config),
                event,
            ),
            Stage::Idle | Stage::Stopped => None,
        }
    }

    /// Bring-up, one worker at a time: worker `next` answered. Ready, it
    /// takes its slot and the following worker is due, or the first sweep
    /// once the pool is complete. Failed, the bring-up is over and no
    /// further worker is launched.
    fn init<C, E>(
        &mut self,
        Ghost(config): Ghost<C>,
        next: WorkerId,
        event: Event<R, E>,
    ) -> (report: Option<SupervisorError<E>>)
        requires
            old(self).model(config).wf(),
            old(self).stage == (Stage::Starting { next }),
        ensures
            final(self).model(config) == old(self).model(config).next(event),
            final(self).model(config).wf(),
            report == old(self).model(config).report(event),
    {
        match event {
            Event::Spawned(SpawnOutcome::Ready(receiver)) => {
                self.spawn_worker(next, receiver);
                if next + 1 < self.target {
                    self.stage = Stage::Starting { next: next + 1 };
                } else {
                    self.stage = self.sweep_from(Ghost(config), 0);
                }
                None
            },
            Event::Spawned(SpawnOutcome::Failed(StartFault::Init(cause))) => {
                self.stage = Stage::Stopped;
                Some(SupervisorError::InitFailure { worker_id: next, cause })
            },
            Event::Spawned(SpawnOutcome::Failed(StartFault::ChannelClosed)) => {
                self.stage = Stage::Stopped;
                Some(SupervisorError::StartupChannelClosed { worker_id: next })
            },
            Event::Probed(_) | Event::Woke => None,
        }
    }

    /// Monitoring: slots are checked in the order of their ids. A
    /// disconnected one is respawned before the sweep goes on, a stray
    /// message is reported and passed over, and after the last slot comes
    /// the pause. A replacement that does not become ready stops the
    /// supervisor.
    fn run<C, E>(&mut self, Ghost(config): Ghost<C>, event: Event<R, E>) -> (report: Option<
        SupervisorError<E>,
    >)
        requires
            old(self).model(config).wf(),
            old(self).model(config).monitoring(),
        ensures
            final(self).model(config) == old(self).model(config).next(event),
            final(self).model(config).wf(),
            report == old(self).model(config).report(event),
    {
        match (self.stage, event) {
            (Stage::Probing { next }, Event::Probed(Probe::Disconnected)) => {
                self.stage = Stage::Respawning { worker_id: next };
                Some(SupervisorError::WorkerDisconnected { worker_id: next })
            },
            (Stage::Probing { next }, Event::Probed(Probe::Message)) => {
                self.stage = self.sweep_from(Ghost(config), next + 1);
                Some(SupervisorError::UnexpectedMessage { worker_id: next })
            },
            (Stage::Probing { next }, Event::Probed(Probe::Empty)) => {
                self.stage = self.sweep_from(Ghost(config), next + 1);
                None
            },
            (Stage::Respawning { worker_id }, Event::Spawned(SpawnOutcome::Ready(receiver))) => {
                self.spawn_worker(worker_id, receiver);
                self.stage = self.sweep_from(Ghost(config), worker_id + 1);
                None
            },
            (Stage::Respawning { worker_id }, Event::Spawned(SpawnOutcome::Failed(fault))) => {
                self.stage = Stage::Stopped;
                Some(SupervisorError::RespawnFailure { worker_id, fault })
            },
            (Stage::Sleeping, Event::Woke) => {
                self.stage = self.sweep_from(Ghost(config), 0);
                None
            },
            _ => None,
        }
    }

    /// Records a ready worker: a new id takes the next slot, a known id
    /// has the channel in its slot replaced. Only the slots change.
    fn spawn_worker(&mut self, worker_id: WorkerId, receiver: R)
        requires
            worker_id <= old(self).workers.len(),
        ensures
            final(self).workers@ == (if worker_id < old(self).workers.len() {
                old(self).workers@.update(worker_id as int, WorkerSlot { id: worker_id, receiver })
            } else {
                old(self).workers@.push(WorkerSlot { id: worker_id, receiver })
            }),
            final(self).target == old(self).target,
            final(self).stage == old(self).stage,
    {
        let slot = WorkerSlot { id: worker_id, receiver };
        if worker_id < self.workers.len() {
            self.workers.set(worker_id, slot);
        } else {
            self.workers.push(slot);
        }
    }

    /// The stage for going on with the sweep at `worker_id`: that slot, or
    /// the pause once every slot has been checked.
    fn sweep_from<C>(&self, Ghost(config): Ghost<C>, worker_id: WorkerId) -> (stage: Stage)
        ensures
            stage == self.model(config).sweep_from(worker_id as nat),
    {
        if worker_id < self.target {
            Stage::Probing { next: worker_id }
        } else {
            Stage::Sleeping
        }
    }

    /// What the driver has to do now.
    fn next_action<C>(&self, Ghost(config): Ghost<C>) -> (action: Option<Action>)
        ensures
            action == self.model(config).pending(),
    {
        match self.stage {
            Stage::Idle => None,
            Stage::Starting { next } => Some(Action::Spawn { worker_id: next }),
            Stage::Probing { next } => Some(Action::Probe { worker_id: next }),
            Stage::Respawning { worker_id } => Some(Action::Spawn { worker_id }),
            Stage::Sleeping => Some(Action::Sleep { millis: POLL_INTERVAL_MS }),
            Stage::Stopped => None,
        }
    }
}

impl<C, R> Supervisor<C, R> {
    #[verifier::type_invariant]
    spec fn well_formed(self) -> bool {
        self@.wf()
    }

    /// Takes the shared configuration handle. The pool is empty until
    /// `start`.
    pub fn new(config: C) -> (supervisor: Self)
        ensures
            supervisor@ == Model::<C, R>::fresh(config),
            supervisor@.wf(),
    {
        Supervisor { config, pool: Pool::idle() }
    }

    /// Begins the bring-up of `worker_count` workers and returns the first
    /// thing to do. A supervisor that was started before is left as it is.
    pub fn start(&mut self, worker_count: usize) -> (action: Option<Action>)
        ensures
            final(self)@ == old(self)@.started(worker_count as nat),
            final(self)@.wf(),
            action == final(self)@.pending(),
    {
        proof {
            use_type_invariant(&*self);
        }
        let ghost config = self.config;
        let mut pool = Pool::idle();
        core::mem::swap(&mut self.pool, &mut pool);
        pool.start(Ghost(config), worker_count);
        let action = pool.next_action(Ghost(config));
        self.pool = pool;
        action
    }

    /// Takes the outcome of the last action and returns what it led to.
    /// An event that the supervisor is not waiting for changes nothing.
    pub fn step<E>(&mut self, event: Event<R, E>) -> (step: Step<E>)
        ensures
            final(self)@ == old(self)@.next(event),
            final(self)@.wf(),
            step.report == old(self)@.report(event),
            step.action == final(self)@.pending(),
    {
        proof {
            use_type_invariant(&*self);
        }
        let ghost config = self.config;
        let mut pool = Pool::idle();
        core::mem::swap(&mut self.pool, &mut pool);
        let report = pool.step(Ghost(config), event);
        let action = pool.next_action(Ghost(config));
        self.pool = pool;
        Step { report, action }
    }

    /// The shared configuration handle, the same for every worker that is
    /// ever launched. The driver hands each new worker a clone of it.
    pub fn config(&self) -> (config: &C)
        ensures
            *config == self@.config,
    {
        &self.config
    }

    /// What the supervisor is waiting for. As every supervisor, this one
    /// is well-formed.
    pub fn stage(&self) -> (stage: Stage)
        ensures
            stage == self@.stage,
            self@.wf(),
    {
        proof {
            use_type_invariant(self);
        }
        self.pool.stage
    }

    /// The number of workers the pool was started for; zero before `start`.
    pub fn worker_count(&self) -> (count: usize)
        ensures
            count == self@.target,
    {
        self.pool.target
    }

    /// The number of workers that have a slot.
    pub fn ready_count(&self) -> (count: usize)
        ensures
            count == self@.slots.len(),
    {
        self.pool.workers.len()
    }

    /// Whether bring-up is over and the pool is being watched.
    pub fn is_monitoring(&self) -> (monitoring: bool)
        ensures
            monitoring == self@.monitoring(),
    {
        match self.pool.stage {
            Stage::Probing { .. } | Stage::Respawning { .. } | Stage::Sleeping => true,
            Stage::Idle | Stage::Starting { .. } | Stage::Stopped => false,
        }
    }

    /// The slot of worker `worker_id`, if that worker has one.
    pub fn slot(&self, worker_id: WorkerId) -> (slot: Option<&WorkerSlot<R>>)
        ensures
            slot == (if worker_id < self@.slots.len() {
                Some(&self@.slots[worker_id as int])
            } else {
                None
            }),
    {
        if worker_id < self.pool.workers.len() {
            Some(&self.pool.workers[worker_id])
        } else {
            None
        }
    }

    /// The receiving end of the liveness channel of worker `worker_id`, if
    /// that worker has a slot.
    pub fn receiver(&self, worker_id: WorkerId) -> (receiver: Option<&R>)
        ensures
            receiver == (if worker_id < self@.slots.len() {
                Some(&self@.slots[worker_id as int].receiver)
            } else {
                None
            }),
    {
        if worker_id < self.pool.workers.len() {
            Some(&self.pool.workers[worker_id].receiver)
        } else {
            None
        }
    }

    /// What the driver has to do now. `None` before `start` and after the
    /// supervisor has stopped. As every supervisor, this one is well-formed.
    pub fn next_action(&self) -> (action: Option<Action>)
        ensures
            action == self@.pending(),
            self@.wf(),
    {
        proof {
            use_type_invariant(self);
        }
        self.pool.next_action(Ghost(self.config))
    }
}

} // verus!
