use vstd::prelude::*;

use crate::epoch::{bump_from, EpochCounter, EpochReader};
use crate::outcome::{Command, ExecError, JobResult};
use crate::run::{explained_by, lemma_steady_prefix, step_for, JobRun, Step};

verus! {

#[verifier::external_type_specification]
#[verifier::external_body]
#[verifier::reject_recursive_types(T)]
pub struct ExQueueSender<T>(crossbeam_channel::Sender<T>);

#[verifier::external_type_specification]
#[verifier::external_body]
#[verifier::reject_recursive_types(T)]
pub struct ExQueueReceiver<T>(crossbeam_channel::Receiver<T>);

#[verifier::external_type_specification]
#[verifier::external_body]
#[verifier::reject_recursive_types(T)]
pub struct ExSinkSender<T>(futures::channel::oneshot::Sender<T>);

#[verifier::external_type_specification]
#[verifier::external_body]
#[verifier::reject_recursive_types(T)]
pub struct ExSinkReceiver<T>(futures::channel::oneshot::Receiver<T>);

#[verifier::external_type_specification]
#[verifier::external_body]
pub struct ExSinkCanceled(futures::channel::oneshot::Canceled);

/// The largest admission capacity accepted. A bounded channel sizes its
/// ring by the next power of two above its capacity, doubled; this keeps
/// that within a 32-bit index.
pub const MAX_CAPACITY: usize = 536_870_912;

/// The capacity that a queue was made with; crossbeam fixes it when the
/// channel is made (`Sender::capacity`).
pub uninterp spec fn queue_bound(q: crossbeam_channel::Sender<Job>) -> usize;

/// Relies on crossbeam_channel::bounded: a channel that holds at most `cap`
/// messages. It panics only for a capacity too large to index.
#[verifier::external_body]
fn bounded_queue(cap: usize) -> (r: (crossbeam_channel::Sender<Job>, crossbeam_channel::Receiver<Job>))
    requires
        cap <= MAX_CAPACITY,
    ensures
        queue_bound(r.0) == cap,
{
    crossbeam_channel::bounded(cap)
}

/// Relies on crossbeam_channel::Sender::try_send: the job is placed in the
/// queue without blocking, or refused when the queue is full or has no
/// receiver. Whether it fits depends on the worker thread.
#[verifier::external_body]
fn try_enqueue(queue: &crossbeam_channel::Sender<Job>, job: Job) -> (sent: bool) {
    queue.try_send(job).is_ok()
}

/// Relies on crossbeam_channel::Receiver::recv: blocks until a job arrives,
/// and yields nothing once the queue is empty and every sender is gone.
#[verifier::external_body]
fn dequeue_blocking(queue: &crossbeam_channel::Receiver<Job>) -> (job: Option<Job>) {
    queue.recv().ok()
}

/// Relies on futures::channel::oneshot::channel: a fresh single-use pair.
#[verifier::external_body]
fn result_channel() -> (r: (
    futures::channel::oneshot::Sender<JobResult>,
    futures::channel::oneshot::Receiver<JobResult>,
)) {
    futures::channel::oneshot::channel()
}

/// Relies on futures::channel::oneshot::Sender::send: hands the value to
/// the receiver, or gives it back when the receiver is gone. Consuming the
/// sender makes the write happen at most once.
#[verifier::external_body]
fn deliver(sink: futures::channel::oneshot::Sender<JobResult>, result: JobResult) -> (taken: bool) {
    sink.send(result).is_ok()
}

/// One admitted unit of work: its step count and the sink that receives its
/// result.
pub struct Job {
    input: usize,
    output: futures::channel::oneshot::Sender<JobResult>,
}

impl Job {
    /// A job of `workload` steps whose result goes to `output`.
    pub fn new(workload: usize, output: futures::channel::oneshot::Sender<JobResult>) -> (j: Job)
        ensures
            j.workload() == workload,
    {
        Job { input: workload, output }
    }

    /// The number of steps the job asks for.
    pub closed spec fn workload(&self) -> usize {
        self.input
    }

    pub fn input(&self) -> (n: usize)
        ensures
            n == self.workload(),
    {
        self.input
    }

    /// Writes the job's result to its sink, consuming the job. A caller that
    /// stopped waiting is no fault: the result is then dropped.
    pub fn finish(self, result: JobResult) {
        let _ = deliver(self.output, result);
    }
}

/// What the front end hands back for a command.
pub enum Reply {
    /// Decided at once: an interrupt's previous epoch, or a refusal.
    Ready(JobResult),
    /// Admitted: the worker will write the result here.
    Pending(futures::channel::oneshot::Receiver<JobResult>),
}

impl Reply {
    /// The value of an immediate reply; nothing for a pending one.
    pub open spec fn ready_value(&self) -> Option<JobResult> {
        match self {
            Reply::Ready(r) => Some(*r),
            Reply::Pending(_) => None,
        }
    }
}

/// The reply to a submission, given whether the queue took the job:
/// pending on the job's result if it did, `Busy` if it did not.
pub fn admission_reply(
    sent: bool,
    pending: futures::channel::oneshot::Receiver<JobResult>,
) -> (r: Reply)
    ensures
        sent ==> r == Reply::Pending(pending),
        !sent ==> r.ready_value() == Some(Err::<usize, ExecError>(ExecError::Busy)),
{
    if sent {
        Reply::Pending(pending)
    } else {
        Reply::Ready(Err(ExecError::Busy))
    }
}

/// The result that a waiting caller sees: what the worker wrote, or
/// `Interrupted` when the job's sink was dropped without a write (the
/// executor shut down first).
pub fn settle(received: Option<JobResult>) -> (r: JobResult)
    ensures
        r == (match received {
            Some(v) => v,
            None => Err::<usize, ExecError>(ExecError::Interrupted),
        }),
{
    match received {
        Some(v) => v,
        None => Err(ExecError::Interrupted),
    }
}

/// The front end: admits jobs into the bounded queue and bumps the epoch.
pub struct Dispatcher {
    queue: crossbeam_channel::Sender<Job>,
    epoch: EpochCounter,
    interrupts: usize,
}

/// The worker's end: takes admitted jobs in order and reads the epoch.
pub struct JobSource {
    jobs: crossbeam_channel::Receiver<Job>,
    epoch: EpochReader,
}

/// Builds a connected front end and worker end around a queue that holds at
/// most `capacity` jobs and a fresh epoch counter at zero. Dropping the
/// front end closes the queue; the worker end then drains what was admitted.
/// A capacity of zero makes a rendezvous queue: a job is admitted only when
/// the worker is waiting for one at that moment.
pub fn executor(capacity: usize) -> (r: (Dispatcher, JobSource))
    requires
        capacity <= MAX_CAPACITY,
    ensures
        r.0.wf(),
        r.0.capacity() == capacity,
        r.0.epoch_count() == 0,
{
    let (tx, rx) = bounded_queue(capacity);
    let epoch = EpochCounter::new();
    let reader = epoch.reader();
    (Dispatcher { queue: tx, epoch, interrupts: 0 }, JobSource { jobs: rx, epoch: reader })
}

impl Dispatcher {
    /// The admission queue's capacity.
    pub closed spec fn capacity(&self) -> usize {
        queue_bound(self.queue)
    }

    /// The epoch's value: the number of interrupts issued so far.
    pub closed spec fn epoch_count(&self) -> nat {
        self.epoch.count()
    }

    /// The front end keeps its own tally of the interrupts it issued.
    pub closed spec fn wf(&self) -> bool {
        self.interrupts == self.epoch.count()
    }

    /// The number of interrupts issued so far.
    pub fn interrupts_issued(&self) -> (n: usize)
        requires
            self.wf(),
        ensures
            n == self.epoch_count(),
    {
        self.interrupts
    }

    /// Submits a job of `workload` steps. Never blocks: the reply is pending
    /// on the job's result when the queue admits it, and `Busy` at once when
    /// the queue is full.
    pub fn submit(&self, workload: usize) -> (r: Reply)
        ensures
            r is Ready ==> r.ready_value() == Some(Err::<usize, ExecError>(ExecError::Busy)),
    {
        let (tx, rx) = result_channel();
        let job = Job::new(workload, tx);
        let sent = try_enqueue(&self.queue, job);
        admission_reply(sent, rx)
    }

    /// Bumps the epoch, cancelling the job that is running, and returns the
    /// epoch value held just before.
    pub fn interrupt(&mut self) -> (previous: usize)
        requires
            old(self).wf(),
            old(self).epoch_count() < usize::MAX,
        ensures
            final(self).wf(),
            previous == bump_from(old(self).epoch_count()).0,
            final(self).epoch_count() == bump_from(old(self).epoch_count()).1,
            final(self).capacity() == old(self).capacity(),
    {
        let previous = self.epoch.bump();
        self.interrupts = self.interrupts + 1;
        previous
    }

    /// Performs one command: an `Echo` is submitted, an `Interrupt` answers
    /// at once with the previous epoch.
    pub fn handle(&mut self, cmd: Command) -> (r: Reply)
        requires
            old(self).wf(),
            cmd is Interrupt ==> old(self).epoch_count() < usize::MAX,
        ensures
            final(self).wf(),
            final(self).capacity() == old(self).capacity(),
            cmd is Echo ==> final(self).epoch_count() == old(self).epoch_count(),
            cmd is Echo && r is Ready ==> r.ready_value() == Some(
                Err::<usize, ExecError>(ExecError::Busy),
            ),
            cmd is Interrupt ==> r.ready_value() == Some(
                Ok::<usize, ExecError>(bump_from(old(self).epoch_count()).0),
            ) && final(self).epoch_count() == bump_from(old(self).epoch_count()).1,
    {
        match cmd {
            Command::Echo(n) => self.submit(n),
            Command::Interrupt => Reply::Ready(Ok(self.interrupt())),
        }
    }
}

impl JobSource {
    /// The next admitted job, in admission order; `None` once the front end
    /// is gone and every admitted job was taken.
    pub fn next_job(&self) -> (job: Option<Job>) {
        dequeue_blocking(&self.jobs)
    }

    /// Starts running `job` under the epoch as it is now.
    pub fn begin(&self, job: &Job) -> (r: JobRun)
        ensures
            r.wf(),
            r.workload() == job.workload(),
            r.done() == 0,
            r.outcome() == (if job.workload() == 0 {
                Some(Ok::<usize, ExecError>(0))
            } else {
                None
            }),
    {
        let init = self.epoch.snapshot();
        JobRun::start(job.input(), init)
    }

    /// Reads the epoch after one quantum of `run` and records it.
    pub fn check(&self, run: &mut JobRun) -> (s: Step)
        requires
            old(run).wf(),
            old(run).outcome().is_none(),
        ensures
            final(run).wf(),
            final(run).workload() == old(run).workload(),
            final(run).init() == old(run).init(),
            final(run).outcome() is None ==> final(run).done() == old(run).done() + 1,
            final(run).outcome() matches Some(Ok(w)) ==> w == old(run).workload()
                && final(run).done() == old(run).workload()
                && old(run).done() + 1 == old(run).workload(),
            final(run).outcome() matches Some(Err(e)) ==> e == ExecError::Interrupted
                && final(run).done() == old(run).done(),
            s == step_for(final(run).outcome()),
    {
        let current = self.epoch.snapshot();
        run.observe(current)
    }

    /// Runs `job` to its end and writes its result to the job's sink: one
    /// call of `pause` per quantum, then a read of the epoch; a change from
    /// the epoch captured at the start stops the job as interrupted. Returns
    /// the result and the number of quanta slept, which are what the epoch
    /// readings taken explain.
    pub fn process<F: Fn()>(&self, job: Job, pause: &F) -> (r: (JobResult, usize))
        requires
            pause.requires(()),
        ensures
            exists|init: usize, obs: Seq<usize>|
                #[trigger] explained_by(job.workload(), r.0, r.1 as nat, init, obs),
            job.workload() == 0 ==> r.0 == Ok::<usize, ExecError>(0) && r.1 == 0,
            r.0 is Ok ==> r.0 == Ok::<usize, ExecError>(job.workload()) && r.1 == job.workload(),
            r.0 is Err ==> r.0 == Err::<usize, ExecError>(ExecError::Interrupted) && 1 <= r.1
                <= job.workload(),
    {
        let w = job.input();
        let mut run = self.begin(&job);
        let ghost init = run.init();
        let ghost mut obs: Seq<usize> = Seq::empty();
        let mut slept: usize = 0;
        let mut step = run.next_step();
        while matches!(step, Step::Sleep)
            invariant
                run.wf(),
                run.workload() == w,
                w == job.workload(),
                run.init() == init,
                step == step_for(run.outcome()),
                obs.len() == slept,
                slept <= w,
                run.outcome() is None ==> run.done() == slept,
                !(run.outcome() matches Some(Err(_))) ==> forall|j: int|
                    0 <= j < slept ==> obs[j] == init,
                run.outcome() matches Some(Ok(x)) ==> slept == w,
                run.outcome() matches Some(Err(e)) ==> e == ExecError::Interrupted && slept >= 1
                    && obs[slept - 1] != init && forall|j: int|
                    0 <= j < slept - 1 ==> obs[j] == init,
                pause.requires(()),
            decreases w - slept,
        {
            pause();
            let current = self.epoch.snapshot();
            proof {
                obs = obs.push(current);
            }
            step = run.observe(current);
            slept = slept + 1;
        }
        let result = match step {
            Step::Finish(r) => r,
            Step::Sleep => Err(ExecError::Interrupted),
        };
        proof {
            if result is Ok {
                lemma_steady_prefix(init, obs, w as nat);
            } else {
                lemma_steady_prefix(init, obs, (slept - 1) as nat);
            }
            assert(explained_by(w, result, slept as nat, init, obs));
        }
        job.finish(result);
        let r = (result, slept);
        assert(explained_by(w, r.0, r.1 as nat, init, obs));
        r
    }
}

} // verus!
