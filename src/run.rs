use vstd::prelude::*;

use crate::outcome::{ExecError, JobResult};

verus! {

/// What the worker does next for the job it is running.
#[derive(Debug, Clone, Copy, PartialEq, Eq)]
pub enum Step {
    /// Sleep one quantum, then report the epoch through `JobRun::observe`.
    Sleep,
    /// Stop and deliver this result to the job's sink.
    Finish(JobResult),
}

/// The action that a run in the given state asks for.
pub open spec fn step_for(outcome: Option<JobResult>) -> Step {
    match outcome {
        Some(r) => Step::Finish(r),
        None => Step::Sleep,
    }
}

/// The worker's state for one job: its workload, the epoch captured when it
/// started, the steps done so far, and its result once decided.
pub struct JobRun {
    workload: usize,
    init: usize,
    done: usize,
    result: Option<JobResult>,
}

impl JobRun {
    /// The number of steps the job asks for.
    pub closed spec fn workload(&self) -> usize {
        self.workload
    }

    /// The epoch captured when the job started.
    pub closed spec fn init(&self) -> usize {
        self.init
    }

    /// The steps completed so far.
    pub closed spec fn done(&self) -> nat {
        self.done as nat
    }

    /// The job's result, once decided.
    pub closed spec fn outcome(&self) -> Option<JobResult> {
        self.result
    }

    /// Steps never exceed the workload; a pending run still has steps left;
    /// a completed run did all of them and reports its workload.
    pub open spec fn wf(&self) -> bool {
        &&& self.done() <= self.workload()
        &&& self.outcome() is None ==> self.done() < self.workload()
        &&& self.outcome() matches Some(Ok(w)) ==> w == self.workload() && self.done() == self.workload()
    }

    /// Starts a job of `workload` steps under the epoch `init`. A job without
    /// steps is complete at once.
    pub fn start(workload: usize, init: usize) -> (r: JobRun)
        ensures
            r.wf(),
            r.workload() == workload,
            r.init() == init,
            r.done() == 0,
            r.outcome() == (if workload == 0 {
                Some(Ok::<usize, ExecError>(0))
            } else {
                None
            }),
    {
        let result = if workload == 0 {
            Some(Ok(0))
        } else {
            None
        };
        JobRun { workload, init, done: 0, result }
    }

    pub fn workload_of(&self) -> (w: usize)
        ensures
            w == self.workload(),
    {
        self.workload
    }

    pub fn captured_epoch(&self) -> (e: usize)
        ensures
            e == self.init(),
    {
        self.init
    }

    pub fn steps_done(&self) -> (d: usize)
        ensures
            d == self.done(),
    {
        self.done
    }

    /// The action that the run asks for now.
    pub fn next_step(&self) -> (s: Step)
        ensures
            s == step_for(self.outcome()),
    {
        match self.result {
            Some(r) => Step::Finish(r),
            None => Step::Sleep,
        }
    }

    /// Records the epoch read after one quantum of work. A change of epoch
    /// interrupts the job; otherwise the step counts, and the last step
    /// completes it.
    pub fn observe(&mut self, current: usize) -> (s: Step)
        requires
            old(self).wf(),
            old(self).outcome().is_none(),
        ensures
            final(self).wf(),
            final(self).workload() == old(self).workload(),
            final(self).init() == old(self).init(),
            current != old(self).init() ==> final(self).done() == old(self).done()
                && final(self).outcome() == Some(Err::<usize, ExecError>(ExecError::Interrupted)),
            current == old(self).init() ==> final(self).done() == old(self).done() + 1
                && final(self).outcome() == (if old(self).done() + 1 == old(self).workload() {
                    Some(Ok::<usize, ExecError>(old(self).workload()))
                } else {
                    None
                }),
            s == step_for(final(self).outcome()),
    {
        if current != self.init {
            self.result = Some(Err(ExecError::Interrupted));
        } else {
            self.done = self.done + 1;
            if self.done == self.workload {
                self.result = Some(Ok(self.workload));
            }
        }
        self.next_step()
    }
}


/// How many of the leading epoch readings equal `init`.
pub open spec fn steady_prefix(init: usize, obs: Seq<usize>) -> nat
    decreases obs.len(),
{
    if obs.len() == 0 || obs[0] != init {
        0
    } else {
        1 + steady_prefix(init, obs.drop_first())
    }
}

/// The result of a job of `workload` steps started under `init`, when the
/// reading after its `i`-th step is `obs[i]`.
pub open spec fn outcome_of(workload: usize, init: usize, obs: Seq<usize>) -> JobResult {
    if steady_prefix(init, obs) >= workload {
        Ok(workload)
    } else {
        Err(ExecError::Interrupted)
    }
}

/// The number of quanta such a job sleeps before its result is decided.
pub open spec fn quanta_of(workload: usize, init: usize, obs: Seq<usize>) -> nat {
    if steady_prefix(init, obs) >= workload {
        workload as nat
    } else {
        steady_prefix(init, obs) + 1
    }
}

/// `r` and `quanta` are what a job of `workload` steps started under `init`
/// gives when `obs` are the epoch readings it took, one after each quantum.
pub open spec fn explained_by(
    workload: usize,
    r: JobResult,
    quanta: nat,
    init: usize,
    obs: Seq<usize>,
) -> bool {
    &&& obs.len() == quanta
    &&& r == outcome_of(workload, init, obs)
    &&& quanta == quanta_of(workload, init, obs)
}

pub(crate) proof fn lemma_steady_prefix(init: usize, obs: Seq<usize>, k: nat)
    requires
        k <= obs.len(),
    ensures
        steady_prefix(init, obs) >= k <==> (forall|j: int| 0 <= j < k ==> obs[j] == init),
        (forall|j: int| 0 <= j < k ==> obs[j] == init) && k < obs.len() && obs[k as int] != init
            ==> steady_prefix(init, obs) == k,
    decreases k,
{
    if k > 0 {
        let rest = obs.drop_first();
        lemma_steady_prefix(init, rest, (k - 1) as nat);
        assert forall|j: int| 0 <= j < k - 1 implies rest[j] == obs[j + 1] by {}
        if forall|j: int| 0 <= j < k ==> obs[j] == init {
            assert(obs[0] == init);
            assert forall|j: int| 0 <= j < k - 1 implies rest[j] == init by {
                assert(obs[j + 1] == init);
            }
        }
        if obs[0] == init && steady_prefix(init, rest) >= k - 1 {
            assert forall|j: int| 0 <= j < k implies obs[j] == init by {
                if j > 0 {
                    assert(rest[j - 1] == obs[j]);
                }
            }
        }
    }
}

/// Runs a job of `workload` steps started under `init` against the epoch
/// readings `obs`, one per step, and returns its result and the number of
/// quanta it slept.
pub fn run_observed(workload: usize, init: usize, obs: &Vec<usize>) -> (r: (JobResult, usize))
    requires
        workload <= obs@.len(),
    ensures
        r.0 == outcome_of(workload, init, obs@),
        r.1 == quanta_of(workload, init, obs@),
{
    let mut run = JobRun::start(workload, init);
    let mut step = run.next_step();
    let mut slept: usize = 0;
    while slept < workload && matches!(step, Step::Sleep)
        invariant
            run.wf(),
            run.workload() == workload,
            run.init() == init,
            run.done() == slept,
            slept <= workload <= obs@.len(),
            step == step_for(run.outcome()),
            forall|j: int| 0 <= j < slept ==> obs@[j] == init,
            run.outcome() is Some ==> run.outcome() == Some(Ok::<usize, ExecError>(workload))
                && slept == workload,
        decreases workload - slept,
    {
        let current = obs[slept];
        step = run.observe(current);
        if current != init {
            proof {
                lemma_steady_prefix(init, obs@, slept as nat);
            }
            return (Err(ExecError::Interrupted), slept + 1);
        }
        slept = slept + 1;
    }
    proof {
        lemma_steady_prefix(init, obs@, workload as nat);
    }
    (Ok(workload), workload)
}

/// Without an interrupt during its run, a job of `n` steps completes with
/// `n` after sleeping `n` quanta.
pub proof fn completes_without_interrupt(n: usize, init: usize, obs: Seq<usize>)
    requires
        n <= obs.len(),
        forall|j: int| 0 <= j < n ==> obs[j] == init,
    ensures
        outcome_of(n, init, obs) == Ok::<usize, ExecError>(n),
        quanta_of(n, init, obs) == n,
{
    lemma_steady_prefix(init, obs, n as nat);
}

/// When the epoch differs from the captured one at some step before the
/// last, the job is interrupted, no later than that step.
pub proof fn interrupted_when_epoch_moves(n: usize, init: usize, obs: Seq<usize>, i: int)
    requires
        n <= obs.len(),
        0 <= i < n,
        obs[i] != init,
    ensures
        outcome_of(n, init, obs) == Err::<usize, ExecError>(ExecError::Interrupted),
        quanta_of(n, init, obs) <= i + 1,
{
    lemma_steady_prefix(init, obs, n as nat);
    lemma_steady_prefix(init, obs, (i + 1) as nat);
}

/// A job that starts after an interrupt captures the new epoch; if no other
/// interrupt follows, it completes with its workload.
pub proof fn fresh_epoch_completes(prior: usize, n: usize, obs: Seq<usize>)
    requires
        prior < usize::MAX,
        n <= obs.len(),
        forall|j: int| 0 <= j < n ==> obs[j] == prior + 1,
    ensures
        outcome_of(n, (prior + 1) as usize, obs) == Ok::<usize, ExecError>(n),
{
    completes_without_interrupt(n, (prior + 1) as usize, obs);
}


/// A run whose every reading matched the captured epoch completed with its
/// workload after sleeping one quantum per step.
pub proof fn steady_readings_complete(
    n: usize,
    r: JobResult,
    quanta: nat,
    init: usize,
    obs: Seq<usize>,
)
    requires
        explained_by(n, r, quanta, init, obs),
        forall|j: int| 0 <= j < obs.len() ==> obs[j] == init,
    ensures
        r == Ok::<usize, ExecError>(n),
        quanta == n,
{
    lemma_steady_prefix(init, obs, obs.len());
}

/// A run with a reading that differs from the captured epoch was
/// interrupted, and its last reading was the first such one: it did no step
/// after it.
pub proof fn moved_epoch_interrupts(
    n: usize,
    r: JobResult,
    quanta: nat,
    init: usize,
    obs: Seq<usize>,
    i: int,
)
    requires
        explained_by(n, r, quanta, init, obs),
        0 <= i < obs.len(),
        obs[i] != init,
    ensures
        r == Err::<usize, ExecError>(ExecError::Interrupted),
        quanta >= 1,
        obs[quanta - 1] != init,
        forall|j: int| 0 <= j < quanta - 1 ==> obs[j] == init,
{
    lemma_steady_prefix(init, obs, obs.len());
    let k = steady_prefix(init, obs);
    lemma_steady_prefix(init, obs, (i + 1) as nat);
    if k >= n {
        lemma_steady_prefix(init, obs, n as nat);
        assert(false);
    }
    lemma_steady_prefix(init, obs, k);
    lemma_steady_prefix(init, obs, k + 1);
}

} // verus!
