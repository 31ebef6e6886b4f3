use std::cell::{Cell, RefCell};

use epoch_exec::{
    admission_reply, executor, run_observed, settle, Command, EpochCounter, ExecError, JobRun,
    JobResult, Reply, Step,
};
use futures::channel::oneshot::Receiver;

fn pending(reply: Reply) -> Receiver<JobResult> {
    match reply {
        Reply::Pending(rx) => rx,
        Reply::Ready(r) => panic!("expected an admitted job, got {:?}", r),
    }
}

fn ready(reply: Reply) -> JobResult {
    match reply {
        Reply::Ready(r) => r,
        Reply::Pending(_) => panic!("expected an immediate reply"),
    }
}

fn received(rx: Receiver<JobResult>) -> Option<JobResult> {
    futures::executor::block_on(rx).ok()
}

#[test]
fn interrupt_test() {
    let (front, worker) = executor(16);
    let front = RefCell::new(front);
    let m1 = pending(front.borrow().submit(1_000));
    let job = worker.next_job().unwrap();
    let quanta = Cell::new(0usize);
    let m2 = Cell::new(None);
    // 100 ms into the job, at 10 ms a quantum, the interrupt arrives.
    let (result, slept) = worker.process(job, &|| {
        quanta.set(quanta.get() + 1);
        if quanta.get() == 100 / 10 {
            m2.set(Some(front.borrow_mut().interrupt()));
        }
    });
    assert_eq!(result, Err(ExecError::Interrupted));
    assert_eq!(slept, 10);
    assert_eq!(received(m1), Some(Err(ExecError::Interrupted)));
    assert_eq!(m2.get(), Some(0));
    assert_eq!(quanta.get(), 10);
}

#[test]
fn busy_test() {
    let (front, _worker) = executor(16);
    let mut admitted = Vec::new();
    for _ in 0..16 {
        admitted.push(pending(front.submit(1_000)));
    }
    assert_eq!(ready(front.submit(1_000)), Err(ExecError::Busy));
    assert_eq!(admitted.len(), 16);
}

#[test]
fn beyond_capacity_every_submission_is_busy() {
    let (front, _worker) = executor(3);
    let mut outcomes = Vec::new();
    for n in 0..7usize {
        outcomes.push(matches!(front.submit(n), Reply::Pending(_)));
    }
    assert_eq!(outcomes, vec![true, true, true, false, false, false, false]);
}

#[test]
fn first_interrupt_returns_zero() {
    let (mut front, _worker) = executor(16);
    assert_eq!(front.interrupt(), 0);
    assert_eq!(front.interrupts_issued(), 1);
}

#[test]
fn interrupts_return_distinct_increasing_values() {
    let (mut front, _worker) = executor(16);
    let seen = vec![front.interrupt(), front.interrupt(), front.interrupt(), front.interrupt()];
    assert_eq!(seen, vec![0, 1, 2, 3]);
    assert_eq!(front.interrupts_issued(), 4);
}

#[test]
fn job_without_interrupt_completes_after_its_quanta() {
    let (front, worker) = executor(16);
    let rx = pending(front.submit(5));
    let job = worker.next_job().unwrap();
    let quanta = Cell::new(0usize);
    let result = worker.process(job, &|| quanta.set(quanta.get() + 1));
    assert_eq!(result, (Ok(5), 5));
    assert_eq!(quanta.get(), 5);
    assert_eq!(received(rx), Some(Ok(5)));
}

#[test]
fn job_after_interrupt_completes() {
    let (mut front, worker) = executor(16);
    assert_eq!(front.interrupt(), 0);
    let rx = pending(front.submit(3));
    let job = worker.next_job().unwrap();
    assert_eq!(worker.process(job, &|| {}), (Ok(3), 3));
    assert_eq!(received(rx), Some(Ok(3)));
}

#[test]
fn interrupt_before_dequeue_leaves_queued_job_alone() {
    let (mut front, worker) = executor(16);
    let rx = pending(front.submit(2));
    assert_eq!(front.interrupt(), 0);
    let job = worker.next_job().unwrap();
    assert_eq!(worker.process(job, &|| {}), (Ok(2), 2));
    assert_eq!(received(rx), Some(Ok(2)));
}

#[test]
fn worker_goes_on_after_an_interrupted_job() {
    let (front, worker) = executor(16);
    let front = RefCell::new(front);
    let first = pending(front.borrow().submit(50));
    let second = pending(front.borrow().submit(4));
    let job = worker.next_job().unwrap();
    let r = worker.process(job, &|| {
        front.borrow_mut().interrupt();
    });
    assert_eq!(r, (Err(ExecError::Interrupted), 1));
    let job = worker.next_job().unwrap();
    assert_eq!(worker.process(job, &|| {}), (Ok(4), 4));
    assert_eq!(received(first), Some(Err(ExecError::Interrupted)));
    assert_eq!(received(second), Some(Ok(4)));
}

#[test]
fn empty_workload_completes_without_sleeping() {
    let (front, worker) = executor(16);
    let rx = pending(front.submit(0));
    let job = worker.next_job().unwrap();
    let quanta = Cell::new(0usize);
    assert_eq!(worker.process(job, &|| quanta.set(quanta.get() + 1)), (Ok(0), 0));
    assert_eq!(quanta.get(), 0);
    assert_eq!(received(rx), Some(Ok(0)));
}

#[test]
fn jobs_leave_in_admission_order() {
    let (front, worker) = executor(4);
    let _a = front.submit(7);
    let _b = front.submit(8);
    let _c = front.submit(9);
    let order: Vec<usize> = (0..3).map(|_| worker.next_job().unwrap().input()).collect();
    assert_eq!(order, vec![7, 8, 9]);
}

#[test]
fn closing_the_front_end_drains_then_ends() {
    let (front, worker) = executor(4);
    let rx = pending(front.submit(1));
    drop(front);
    let job = worker.next_job().unwrap();
    assert_eq!(job.input(), 1);
    assert_eq!(worker.process(job, &|| {}), (Ok(1), 1));
    assert_eq!(received(rx), Some(Ok(1)));
    assert!(worker.next_job().is_none());
}

#[test]
fn abandoned_caller_does_not_stop_the_worker() {
    let (front, worker) = executor(4);
    drop(pending(front.submit(2)));
    let job = worker.next_job().unwrap();
    assert_eq!(worker.process(job, &|| {}), (Ok(2), 2));
}

#[test]
fn unwritten_sink_settles_as_interrupted() {
    let (front, worker) = executor(4);
    let rx = pending(front.submit(2));
    drop(worker);
    drop(front);
    assert_eq!(settle(received(rx)), Err(ExecError::Interrupted));
    assert_eq!(settle(Some(Ok(6))), Ok(6));
    assert_eq!(settle(Some(Err(ExecError::Busy))), Err(ExecError::Busy));
}

#[test]
fn handle_dispatches_commands() {
    let (mut front, worker) = executor(1);
    assert_eq!(ready(front.handle(Command::Interrupt)), Ok(0));
    assert_eq!(ready(front.handle(Command::Interrupt)), Ok(1));
    let rx = pending(front.handle(Command::Echo(2)));
    assert_eq!(ready(front.handle(Command::Echo(2))), Err(ExecError::Busy));
    let job = worker.next_job().unwrap();
    assert_eq!(worker.process(job, &|| {}), (Ok(2), 2));
    assert_eq!(received(rx), Some(Ok(2)));
    assert_eq!(front.interrupts_issued(), 2);
}

#[test]
fn zero_capacity_refuses_without_a_waiting_worker() {
    let (front, _worker) = executor(0);
    assert_eq!(ready(front.submit(1)), Err(ExecError::Busy));
}

#[test]
fn refused_admission_replies_busy() {
    let (_tx, rx) = futures::channel::oneshot::channel::<JobResult>();
    assert_eq!(ready(admission_reply(false, rx)), Err(ExecError::Busy));
    let (_tx, rx) = futures::channel::oneshot::channel::<JobResult>();
    assert!(matches!(admission_reply(true, rx), Reply::Pending(_)));
}

#[test]
fn run_steps_through_states() {
    let mut run = JobRun::start(3, 4);
    assert_eq!(run.next_step(), Step::Sleep);
    assert_eq!(run.observe(4), Step::Sleep);
    assert_eq!(run.observe(4), Step::Sleep);
    assert_eq!(run.steps_done(), 2);
    assert_eq!(run.observe(4), Step::Finish(Ok(3)));
    assert_eq!(run.steps_done(), 3);

    let mut run = JobRun::start(3, 4);
    assert_eq!(run.observe(4), Step::Sleep);
    assert_eq!(run.observe(5), Step::Finish(Err(ExecError::Interrupted)));
    assert_eq!(run.steps_done(), 1);
    assert_eq!(run.workload_of(), 3);
    assert_eq!(run.captured_epoch(), 4);

    assert_eq!(JobRun::start(0, 9).next_step(), Step::Finish(Ok(0)));
}

#[test]
fn observed_run_without_change_completes() {
    assert_eq!(run_observed(4, 7, &vec![7, 7, 7, 7]), (Ok(4), 4));
    assert_eq!(run_observed(2, 7, &vec![7, 7, 8]), (Ok(2), 2));
    assert_eq!(run_observed(0, 1, &vec![]), (Ok(0), 0));
}

#[test]
fn observed_run_stops_at_first_change() {
    assert_eq!(
        run_observed(5, 0, &vec![0, 0, 1, 1, 2]),
        (Err(ExecError::Interrupted), 3)
    );
    assert_eq!(run_observed(5, 0, &vec![3, 0, 0, 0, 0]), (Err(ExecError::Interrupted), 1));
}

#[test]
fn shared_counter_handles_see_the_same_value() {
    let mut a = EpochCounter::new();
    let b = a.reader();
    let c = a.reader();
    assert_eq!(b.snapshot(), 0);
    assert_eq!(a.bump(), 0);
    assert_eq!(b.snapshot(), 1);
    assert_eq!(a.bump(), 1);
    assert_eq!(c.snapshot(), 2);
}

#[test]
fn begin_captures_the_current_epoch() {
    let (mut front, worker) = executor(2);
    front.interrupt();
    front.interrupt();
    let _rx = front.submit(3);
    let job = worker.next_job().unwrap();
    let mut run = worker.begin(&job);
    assert_eq!(run.captured_epoch(), 2);
    assert_eq!(worker.check(&mut run), Step::Sleep);
    front.interrupt();
    assert_eq!(worker.check(&mut run), Step::Finish(Err(ExecError::Interrupted)));
}
