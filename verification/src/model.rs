//! The supervisor as a state machine over mathematical values: the state
//! that the executable supervisor is viewed as, and the transition that
//! each reported event causes.

use vstd::prelude::*;
use crate::protocol::{
    Action, Event, Probe, SpawnOutcome, StartFault, SupervisorError, WorkerId, WorkerSlot,
    POLL_INTERVAL_MS,
};

verus! {

/// What the supervisor is waiting for.
#[derive(Clone, Copy, Debug, PartialEq, Eq, Structural)]
pub enum Stage {
    /// Created and not yet started.
    Idle,
    /// Bring-up: worker `next` was launched and has not answered yet.
    Starting { next: WorkerId },
    /// Monitoring: slot `next` is the next to be checked in this sweep.
    Probing { next: WorkerId },
    /// Monitoring: a replacement for `worker_id` was launched and has not
    /// answered yet.
    Respawning { worker_id: WorkerId },
    /// Monitoring: the sweep is done and the pause before the next one runs.
    Sleeping,
    /// A worker failed to start, initially or as a replacement. Nothing
    /// further is asked of the driver.
    Stopped,
}

/// The state of a supervisor.
pub struct Model<C, R> {
    /// The shared configuration handle that every worker is built from.
    pub config: C,
    /// One slot per ready worker, in the order of their ids.
    pub slots: Seq<WorkerSlot<R>>,
    /// The number of workers the pool was started for.
    pub target: nat,
    pub stage: Stage,
}

impl<C, R> Model<C, R> {
    /// A supervisor as created: its configuration and no slots.
    pub open spec fn fresh(config: C) -> Self {
        Model { config, slots: Seq::empty(), target: 0, stage: Stage::Idle }
    }

    /// Slot `i` holds worker `i`, and the number of slots fits the stage:
    /// during bring-up exactly the workers below `next` are ready, and while
    /// monitoring the pool is complete. Worker ids are machine words.
    pub open spec fn wf(self) -> bool {
        &&& self.target <= usize::MAX
        &&& forall|i: int| 0 <= i < self.slots.len() ==> (#[trigger] self.slots[i]).id == i
        &&& match self.stage {
            Stage::Idle => self.slots.len() == 0,
            Stage::Starting { next } => self.slots.len() == next && next < self.target,
            Stage::Probing { next } => self.slots.len() == self.target && next < self.target,
            Stage::Respawning { worker_id } => {
                self.slots.len() == self.target && worker_id < self.target
            },
            Stage::Sleeping => self.slots.len() == self.target,
            Stage::Stopped => self.slots.len() <= self.target,
        }
    }

    /// Bring-up is over and the pool is being watched.
    pub open spec fn monitoring(self) -> bool {
        self.stage is Probing || self.stage is Respawning || self.stage is Sleeping
    }

    /// What the driver has to do in this state, if anything.
    pub open spec fn pending(self) -> Option<Action> {
        match self.stage {
            Stage::Idle => None,
            Stage::Starting { next } => Some(Action::Spawn { worker_id: next }),
            Stage::Probing { next } => Some(Action::Probe { worker_id: next }),
            Stage::Respawning { worker_id } => Some(Action::Spawn { worker_id }),
            Stage::Sleeping => Some(Action::Sleep { millis: POLL_INTERVAL_MS }),
            Stage::Stopped => None,
        }
    }

    /// The stage of a sweep that goes on with slot `worker_id`: that slot,
    /// or the pause once every slot has been checked.
    pub open spec fn sweep_from(self, worker_id: nat) -> Stage {
        if worker_id < self.target {
            Stage::Probing { next: worker_id as usize }
        } else {
            Stage::Sleeping
        }
    }

    /// The state after `start(worker_count)`. Only an idle supervisor starts.
    pub open spec fn started(self, worker_count: nat) -> Self {
        match self.stage {
            Stage::Idle => {
                let begun = Model { target: worker_count, ..self };
                if worker_count > 0 {
                    Model { stage: Stage::Starting { next: 0 }, ..begun }
                } else {
                    Model { stage: Stage::Sleeping, ..begun }
                }
            },
            _ => self,
        }
    }

    /// The state after `event`. An event that the stage does not wait for
    /// changes nothing.
    pub open spec fn next<E>(self, event: Event<R, E>) -> Self {
        match (self.stage, event) {
            (Stage::Starting { next }, Event::Spawned(SpawnOutcome::Ready(receiver))) => {
                let grown = Model {
                    slots: self.slots.push(WorkerSlot { id: next, receiver }),
                    ..self
                };
                if next + 1 < self.target {
                    Model { stage: Stage::Starting { next: (next + 1) as usize }, ..grown }
                } else {
                    Model { stage: grown.sweep_from(0), ..grown }
                }
            },
            (Stage::Starting { .. }, Event::Spawned(SpawnOutcome::Failed(_))) => {
                Model { stage: Stage::Stopped, ..self }
            },
            (Stage::Probing { next }, Event::Probed(Probe::Disconnected)) => {
                Model { stage: Stage::Respawning { worker_id: next }, ..self }
            },
            (Stage::Probing { next }, Event::Probed(_)) => {
                Model { stage: self.sweep_from(next as nat + 1), ..self }
            },
            (Stage::Respawning { worker_id }, Event::Spawned(SpawnOutcome::Ready(receiver))) => {
                Model {
                    slots: self.slots.update(
                        worker_id as int,
                        WorkerSlot { id: worker_id, receiver },
                    ),
                    stage: self.sweep_from(worker_id as nat + 1),
                    ..self
                }
            },
            (Stage::Respawning { .. }, Event::Spawned(SpawnOutcome::Failed(_))) => {
                Model { stage: Stage::Stopped, ..self }
            },
            (Stage::Sleeping, Event::Woke) => Model { stage: self.sweep_from(0), ..self },
            _ => self,
        }
    }

    /// What the supervisor reports on `event`, if anything.
    pub open spec fn report<E>(self, event: Event<R, E>) -> Option<SupervisorError<E>> {
        match (self.stage, event) {
            (
                Stage::Starting { next },
                Event::Spawned(SpawnOutcome::Failed(StartFault::Init(cause))),
            ) => Some(SupervisorError::InitFailure { worker_id: next, cause }),
            (
                Stage::Starting { next },
                Event::Spawned(SpawnOutcome::Failed(StartFault::ChannelClosed)),
            ) => Some(SupervisorError::StartupChannelClosed { worker_id: next }),
            (Stage::Probing { next }, Event::Probed(Probe::Message)) => {
                Some(SupervisorError::UnexpectedMessage { worker_id: next })
            },
            (Stage::Probing { next }, Event::Probed(Probe::Disconnected)) => {
                Some(SupervisorError::WorkerDisconnected { worker_id: next })
            },
            (Stage::Respawning { worker_id }, Event::Spawned(SpawnOutcome::Failed(fault))) => {
                Some(SupervisorError::RespawnFailure { worker_id, fault })
            },
            _ => None,
        }
    }

    /// The state after a whole sequence of events, the first one first.
    pub open spec fn run<E>(self, events: Seq<Event<R, E>>) -> Self
        decreases events.len(),
    {
        if events.len() == 0 {
            self
        } else {
            self.run(events.drop_last()).next(events.last())
        }
    }
}

} // verus!
