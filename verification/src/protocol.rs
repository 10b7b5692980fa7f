//! The values exchanged between the supervisor and the driver that owns the
//! threads and channels: what the driver is asked to do, and what it reports
//! back.

use vstd::prelude::*;

verus! {

/// Pause between two monitor sweeps, in milliseconds.
pub const POLL_INTERVAL_MS: u64 = 500;

/// Capacity of a liveness channel: room for the one readiness signal.
pub const LIVENESS_CHANNEL_CAPACITY: usize = 1;

/// Identity of a slot of the pool, counted from zero. It stays with the
/// slot for the supervisor's lifetime: a replacement takes over the id of
/// the worker it replaces.
pub type WorkerId = usize;

/// The supervisor's record of one worker: its stable id and the receiving
/// end of the liveness channel of the worker's current instance.
#[derive(Debug, PartialEq, Eq)]
pub struct WorkerSlot<R> {
    pub id: WorkerId,
    pub receiver: R,
}

/// Why a freshly launched worker never confirmed readiness.
#[derive(Debug, PartialEq, Eq)]
pub enum StartFault<E> {
    /// The worker's initialization step failed with this cause.
    Init(E),
    /// The worker's thread ended, and with it the sending end of its
    /// channel, before any readiness signal was sent.
    ChannelClosed,
}

/// Result of launching one worker and waiting once on its liveness channel.
#[derive(Debug, PartialEq, Eq)]
pub enum SpawnOutcome<R, E> {
    /// The readiness signal arrived; the receiving end is handed over.
    Ready(R),
    /// The channel was disconnected before any signal arrived.
    Failed(StartFault<E>),
}

/// Result of a non-blocking check of a liveness channel.
#[derive(Clone, Copy, Debug, PartialEq, Eq, Structural)]
pub enum Probe {
    /// Nothing waiting: the worker is alive.
    Empty,
    /// A message arrived after readiness.
    Message,
    /// The sending end is gone: the worker has terminated.
    Disconnected,
}

/// What the driver reports back after carrying out an [`Action`].
#[derive(Debug, PartialEq, Eq)]
pub enum Event<R, E> {
    /// A worker was launched and its readiness awaited.
    Spawned(SpawnOutcome<R, E>),
    /// A slot's channel was checked without blocking.
    Probed(Probe),
    /// The pause between two sweeps is over.
    Woke,
}

/// What the driver has to do next.
#[derive(Clone, Copy, Debug, PartialEq, Eq, Structural)]
pub enum Action {
    /// Launch a fresh worker for this id from the shared configuration and
    /// block on a single receive from its new liveness channel.
    Spawn { worker_id: WorkerId },
    /// Check this slot's channel without blocking.
    Probe { worker_id: WorkerId },
    /// Pause for this many milliseconds.
    Sleep { millis: u64 },
}

/// Everything the supervisor can report about its workers.
#[derive(Debug, PartialEq, Eq)]
pub enum SupervisorError<E> {
    /// A worker's initialization failed during the synchronized bring-up.
    InitFailure { worker_id: WorkerId, cause: E },
    /// A worker's channel closed during bring-up before readiness arrived.
    StartupChannelClosed { worker_id: WorkerId },
    /// A running worker sent a message after its readiness signal.
    UnexpectedMessage { worker_id: WorkerId },
    /// A running worker's channel was found disconnected.
    WorkerDisconnected { worker_id: WorkerId },
    /// The replacement for a terminated worker did not become ready.
    RespawnFailure { worker_id: WorkerId, fault: StartFault<E> },
}

/// How far a report travels.
#[derive(Clone, Copy, Debug, PartialEq, Eq, Structural)]
pub enum Severity {
    /// Logged only; the pool keeps running.
    Notice,
    /// Returned to the caller that asked for the pool to be started.
    Startup,
    /// Ends the supervisor, and with it the process.
    Fatal,
}

impl<E> SupervisorError<E> {
    /// The id of the worker that the report is about.
    pub open spec fn spec_worker_id(&self) -> WorkerId {
        match *self {
            SupervisorError::InitFailure { worker_id, .. } => worker_id,
            SupervisorError::StartupChannelClosed { worker_id } => worker_id,
            SupervisorError::UnexpectedMessage { worker_id } => worker_id,
            SupervisorError::WorkerDisconnected { worker_id } => worker_id,
            SupervisorError::RespawnFailure { worker_id, .. } => worker_id,
        }
    }

    pub open spec fn spec_severity(&self) -> Severity {
        match *self {
            SupervisorError::InitFailure { .. } => Severity::Startup,
            SupervisorError::StartupChannelClosed { .. } => Severity::Startup,
            SupervisorError::UnexpectedMessage { .. } => Severity::Notice,
            SupervisorError::WorkerDisconnected { .. } => Severity::Notice,
            SupervisorError::RespawnFailure { .. } => Severity::Fatal,
        }
    }

    /// The id of the worker that the report is about.
    #[verifier::when_used_as_spec(spec_worker_id)]
    pub fn worker_id(&self) -> (id: WorkerId)
        ensures
            id == self.spec_worker_id(),
    {
        match self {
            SupervisorError::InitFailure { worker_id, .. } => *worker_id,
            SupervisorError::StartupChannelClosed { worker_id } => *worker_id,
            SupervisorError::UnexpectedMessage { worker_id } => *worker_id,
            SupervisorError::WorkerDisconnected { worker_id } => *worker_id,
            SupervisorError::RespawnFailure { worker_id, .. } => *worker_id,
        }
    }

    /// Startup failures go back to the caller, a failed respawn is fatal,
    /// and the rest is only logged.
    #[verifier::when_used_as_spec(spec_severity)]
    pub fn severity(&self) -> (severity: Severity)
        ensures
            severity == self.spec_severity(),
    {
        match self {
            SupervisorError::InitFailure { .. } => Severity::Startup,
            SupervisorError::StartupChannelClosed { .. } => Severity::Startup,
            SupervisorError::UnexpectedMessage { .. } => Severity::Notice,
            SupervisorError::WorkerDisconnected { .. } => Severity::Notice,
            SupervisorError::RespawnFailure { .. } => Severity::Fatal,
        }
    }
}

} // verus!
