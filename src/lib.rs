//! A cancellable sequential job executor.
//!
//! Jobs carry a workload of discrete steps. A single worker runs them one at a
//! time and polls a shared epoch counter after each step; an interrupt bumps
//! that counter, and the job whose captured epoch no longer matches ends as
//! interrupted. A bounded queue in front of the worker rejects work when full.

mod dispatch;
mod epoch;
mod outcome;
mod run;

pub use dispatch::{
    admission_reply, executor, queue_bound, settle, Dispatcher, Job, JobSource, Reply, MAX_CAPACITY,
};
pub use epoch::{
    bump_from, first_bump_returns_zero, successive_bumps_increase, EpochCounter, EpochReader,
};
pub use outcome::{Command, ExecError, JobResult};
pub use run::{
    completes_without_interrupt, explained_by, fresh_epoch_completes, interrupted_when_epoch_moves,
    moved_epoch_interrupts, outcome_of, quanta_of, run_observed, steady_prefix,
    steady_readings_complete, step_for, JobRun, Step,
};
