use vstd::prelude::*;

verus! {

/// Why a submitted job produced no workload result.
#[derive(Debug, Clone, Copy, PartialEq, Eq, Structural)]
pub enum ExecError {
    /// The epoch moved while the job was running.
    Interrupted,
    /// The admission queue was full when the job was submitted.
    Busy,
}

/// What a job resolves to: its workload on completion, or an error.
pub type JobResult = Result<usize, ExecError>;

/// The commands that the executor's front end accepts.
#[derive(Debug, Clone, Copy, PartialEq, Eq, Structural)]
pub enum Command {
    /// Run a job of the given number of steps and report it back.
    Echo(usize),
    /// Bump the epoch, cancelling the running job.
    Interrupt,
}

} // verus!
