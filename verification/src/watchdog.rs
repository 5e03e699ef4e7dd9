use vstd::prelude::*;
use std::sync::mpsc::{Receiver, Sender};
use std::sync::Arc;
use std::time::Instant;
use crate::flag::Flag;
use crate::owned_child::ChildHandle;
use crate::Millis;

verus! {

#[verifier::external_type_specification]
#[verifier::external_body]
#[verifier::reject_recursive_types(T)]
pub struct ExSender<T>(Sender<T>);

#[verifier::external_type_specification]
#[verifier::external_body]
#[verifier::reject_recursive_types(T)]
pub struct ExReceiver<T>(Receiver<T>);

#[verifier::external_type_specification]
#[verifier::external_body]
pub struct ExInstant(Instant);

/// One entry of the watchdog's queue: kill `handle` once `timeout`
/// milliseconds have passed since `start`.
pub struct WatchdogJob {
    pub handle: ChildHandle,
    pub start: Instant,
}

/// Relies on std's mpsc::channel: a queue whose receiving end hands the
/// jobs back in the order a sender pushed them.
#[verifier::external_body]
fn job_channel() -> (Sender<WatchdogJob>, Receiver<WatchdogJob>) {
    std::sync::mpsc::channel()
}

/// Relies on std's Sender::send: queues the job; `false` only when the
/// receiving end is gone.
#[verifier::external_body]
fn send_job(sender: &Sender<WatchdogJob>, job: WatchdogJob) -> bool {
    sender.send(job).is_ok()
}

/// Relies on std's Receiver::recv: blocks until a job arrives; `None`
/// once every sender is dropped and the queue has drained.
#[verifier::external_body]
fn recv_job(receiver: &Receiver<WatchdogJob>) -> Option<WatchdogJob> {
    receiver.recv().ok()
}

/// Relies on std's Instant::now: a reading of the monotonic clock.
#[verifier::external_body]
pub fn instant_now() -> Instant {
    Instant::now()
}

/// Relies on std's Instant::elapsed: whole milliseconds of the
/// monotonic clock passed since `earlier`, saturating at u64::MAX.
#[verifier::external_body]
pub fn elapsed_millis(earlier: &Instant) -> u64 {
    u64::try_from(earlier.elapsed().as_millis()).unwrap_or(u64::MAX)
}

/// How long a job registered `elapsed` milliseconds ago may still run
/// before a `timeout`-millisecond allowance is used up; `None` once the
/// allowance is spent.
pub fn remaining_millis(elapsed: Millis, timeout: Millis) -> (r: Option<Millis>)
    ensures
        elapsed < timeout ==> r == Some((timeout - elapsed) as Millis),
        elapsed >= timeout ==> r is None,
{
    if elapsed < timeout {
        Some(timeout - elapsed)
    } else {
        None
    }
}

/// Kills every registered process once its shared timeout has elapsed,
/// or as soon as the cancellation flag is raised, using one background
/// thread for any number of producers.
///
/// Every job gets the same timeout and the queue is first-in first-out,
/// so the deadlines leave the queue in order and the thread only ever
/// needs to wait for the front job: a plain queue does the work of a
/// priority structure.
pub struct Watchdog {
    sender: Sender<WatchdogJob>,
}

impl Watchdog {
    /// Makes the watchdog and the queue end its background thread will
    /// drain.  The caller hands `watchdog_run`, on the returned
    /// receiver and with the shared timeout, to a dedicated thread; it
    /// runs until every `Watchdog` clone of the sending side is
    /// dropped and the queue has drained.
    pub fn start() -> (Watchdog, Receiver<WatchdogJob>) {
        let (sender, receiver) = job_channel();
        (Watchdog { sender }, receiver)
    }

    /// Registers a handle: its process will be killed `timeout_ms`
    /// milliseconds from now, or as soon as the cancellation flag is
    /// raised.  Never blocks the caller.  `false` only when the
    /// background thread is gone.
    pub fn add_handle(&self, handle: ChildHandle) -> bool {
        let job = WatchdogJob { handle, start: instant_now() };
        send_job(&self.sender, job)
    }
}

/// The watchdog thread's loop: drain jobs in order until the sending
/// side hangs up.
pub fn watchdog_run(receiver: Receiver<WatchdogJob>, timeout_ms: Millis, kill_flag: Arc<Flag>) {
    // The budget only states termination: no run ever comes near
    // u64::MAX jobs.
    let mut budget: u64 = u64::MAX;
    while budget > 0
        decreases budget,
    {
        match recv_job(&receiver) {
            None => {
                return ;
            },
            Some(job) => {
                watchdog_step(&job, timeout_ms, &kill_flag);
            },
        }
        budget -= 1;
    }
}

/// Handles one queued job.  A handle that already reports itself
/// useless is skipped at once — no wait, no kill — which keeps the
/// thread's work bounded however many finished jobs flood the queue.
/// Otherwise the thread sleeps until the job's deadline or the
/// cancellation flag, whichever is first, then kills the handle
/// regardless of which one woke it.  Returns whether it slept.
pub fn watchdog_step(job: &WatchdogJob, timeout_ms: Millis, kill_flag: &Flag) -> bool {
    if job.handle.is_useless() {
        return false;
    }
    let elapsed = elapsed_millis(&job.start);
    let slept = match remaining_millis(elapsed, timeout_ms) {
        Some(remaining) => {
            kill_flag.wait_with_timeout(remaining);
            true
        },
        None => false,
    };
    job.handle.try_kill();
    slept
}

/// The number of timed waits a drained queue costs the watchdog
/// thread: one for each job whose handle was not yet useless when the
/// thread reached it.
pub open spec fn watchdog_wait_count(useless: Seq<bool>) -> nat
    decreases useless.len(),
{
    if useless.len() == 0 {
        0
    } else {
        (if useless[0] {
            0nat
        } else {
            1nat
        }) + watchdog_wait_count(useless.drop_first())
    }
}

/// The skip-fast law: draining a queue of jobs that have all finished
/// costs the watchdog no timed wait at all, however long the queue is.
pub proof fn lemma_skip_fast(useless: Seq<bool>)
    requires
        forall|i: int| 0 <= i < useless.len() ==> useless[i],
    ensures
        watchdog_wait_count(useless) == 0,
    decreases useless.len(),
{
    if useless.len() > 0 {
        assert(useless[0]);
        lemma_skip_fast(useless.drop_first());
    }
}

} // verus!
