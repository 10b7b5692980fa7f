//! The worker side: what a worker implementation has to provide, the life
//! of one worker from construction to its end, and how the end of a launch
//! is reported to the supervisor.

use vstd::prelude::*;
use crate::protocol::{SpawnOutcome, StartFault};

verus! {

/// What every kind of worker provides. `Config` is the handle to the
/// shared configuration and `Ready` the sending end of the liveness
/// channel.
pub trait Dispatcher: Sized {
    type Config;

    type Ready;

    type Error;

    /// Whether `init` may turn the worker `before` into `after` and return
    /// `result`. A kind of worker that says nothing of its setup allows
    /// everything.
    open spec fn init_spec(before: Self, after: Self, result: Result<(), Self::Error>) -> bool {
        true
    }

    /// Whether `start` with `ready` may turn the worker `before` into
    /// `after` and return `result`. A kind of worker that says nothing of
    /// its run allows everything.
    open spec fn start_spec(
        before: Self,
        ready: Self::Ready,
        after: Self,
        result: Result<(), Self::Error>,
    ) -> bool {
        true
    }

    /// Builds a worker from the shared configuration. Neither blocks nor
    /// fails.
    fn new(config: Self::Config) -> Self;

    /// Setup that may fail. A worker whose setup failed is never started.
    fn init(&mut self) -> (result: Result<(), Self::Error>)
        ensures
            Self::init_spec(*old(self), *final(self), result),
    ;

    /// Sends exactly one readiness signal on `ready` once the worker is
    /// ready, then runs until the worker stops or fails. When the call is
    /// over `ready` is gone, which is how the supervisor learns that the
    /// worker has ended.
    fn start(&mut self, ready: Self::Ready) -> (result: Result<(), Self::Error>)
        ensures
            Self::start_spec(*old(self), ready, *final(self), result),
    ;
}

/// How the life of one worker ended.
#[derive(Debug, PartialEq, Eq)]
pub enum WorkerExit<E> {
    /// Setup failed; the worker was never started.
    InitFailed(E),
    /// The worker was started and its run came back with this result.
    Returned(Result<(), E>),
}

/// Whether the life of `worker`, started with `ready`, may end in `exit`:
/// in a failed setup of that worker, or in what the run of the worker as
/// set up came back with.
pub open spec fn may_end_in<T: Dispatcher>(
    worker: T,
    ready: T::Ready,
    exit: WorkerExit<T::Error>,
) -> bool {
    match exit {
        WorkerExit::InitFailed(cause) => exists|after: T|
            T::init_spec(worker, after, Err(cause)),
        WorkerExit::Returned(result) => exists|set_up: T, after: T|
            T::init_spec(worker, set_up, Ok(())) && T::start_spec(set_up, ready, after, result),
    }
}

/// The life of one worker on its own thread: it is set up, and only where
/// setup succeeded it is started with the sending end of its liveness
/// channel. Where setup fails, `ready` is dropped unused.
pub fn run_worker<T: Dispatcher>(worker: T, ready: T::Ready) -> (exit: WorkerExit<T::Error>)
    ensures
        may_end_in(worker, ready, exit),
{
    let mut current = worker;
    match current.init() {
        Err(cause) => {
            let exit = WorkerExit::InitFailed(cause);
            assert(T::init_spec(worker, current, Err(exit->InitFailed_0)));
            exit
        },
        Ok(done) => {
            let ghost set_up = current;
            assert(T::init_spec(worker, set_up, Ok(()))) by {
                assert(done == ());
            }
            let exit = WorkerExit::Returned(current.start(ready));
            assert(T::start_spec(set_up, ready, current, exit->Returned_0));
            exit
        },
    }
}

/// What a launch without readiness signal is put down to: the failed
/// setup where the worker's thread reported one, else the closed channel.
/// `exit` is `None` where the thread ended without a report.
pub open spec fn spec_start_fault<E>(exit: Option<WorkerExit<E>>) -> StartFault<E> {
    match exit {
        Some(WorkerExit::InitFailed(cause)) => StartFault::Init(cause),
        _ => StartFault::ChannelClosed,
    }
}

/// What the supervisor is told about a launch. `signalled` says whether
/// the single receive on `receiver` brought the readiness signal; if so
/// the worker is ready and `receiver` becomes its liveness channel. If not,
/// the channel was disconnected, `receiver` is dropped, and `exit` tells
/// how the worker's thread ended.
pub fn spawn_outcome<R, E>(receiver: R, signalled: bool, exit: Option<WorkerExit<E>>) -> (outcome:
    SpawnOutcome<R, E>)
    ensures
        outcome == (if signalled {
            SpawnOutcome::Ready(receiver)
        } else {
            SpawnOutcome::Failed(spec_start_fault(exit))
        }),
{
    if signalled {
        SpawnOutcome::Ready(receiver)
    } else {
        match exit {
            Some(WorkerExit::InitFailed(cause)) => SpawnOutcome::Failed(StartFault::Init(cause)),
            _ => SpawnOutcome::Failed(StartFault::ChannelClosed),
        }
    }
}

} // verus!
