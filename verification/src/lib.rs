//! A supervisor for a fixed pool of long-running workers, and the decisions
//! of the studio launcher.
//!
//! The supervisor starts its workers one after the other, waits for each to
//! confirm that it is ready, and then watches the pool: a worker whose
//! liveness channel is found disconnected is replaced in its slot, under
//! its id. It is written as a state machine. A driver owns the threads, the
//! channels and the clock; it asks the supervisor what to do next, does it,
//! and reports what came of it.
//!
//! * [`protocol`]: what the driver is asked to do and what it reports.
//! * [`model`]: the supervisor's states and transitions as mathematics.
//! * [`supervisor`]: the executable supervisor.
//! * [`laws`]: what holds of every run.
//! * [`dispatcher`]: what a worker provides, and the life of one worker.
//! * [`studio`]: environment defaults, image name, reading of a failed
//!   pull and argument list for launching the studio.
//! * [`text`]: the operations on text that [`studio`] is stated with.

pub mod dispatcher;
pub mod laws;
pub mod model;
pub mod protocol;
pub mod studio;
pub mod supervisor;
pub mod text;
