use vstd::prelude::*;
use vstd::rwlock::RwLock;
use std::sync::Arc;
use core::sync::atomic::{AtomicBool, Ordering};

verus! {

/// How a process ended: a normal exit with a code, or death by a
/// signal, named by its description.
pub enum ExitStatus {
    ExitCode(i32),
    Signalled(String),
}

// ---------------------------------------------------------------------
// The lifecycle model.
//
// A spawned process owns one operating-system child entry until it is
// reaped.  The model below captures the shared-handle protocol: any
// number of `TryKill` requests may arrive from any thread, and a single
// `Finish` (performed by the owner's `wait`) kills and reaps.  The
// proofs state the two laws the runtime types are built around: a
// finished process is reaped exactly once, and killing is idempotent.
// ---------------------------------------------------------------------

/// The shared state of one supervised process, as the model sees it.
pub struct ProcessModel {
    /// The child entry still exists and may be killed or reaped.
    pub pid_present: bool,
    /// A kill has been delivered or the process was seen to end.
    pub terminated: bool,
    /// How many times the child entry has been reaped.
    pub reaps: nat,
}

/// An operation on a process handle.
pub enum HandleOp {
    /// A termination request from any thread.
    TryKill,
    /// The owner's final kill-then-reap, performed by `wait`.
    Finish,
}

/// The state of a freshly spawned process.
pub open spec fn spawned_model() -> ProcessModel {
    ProcessModel { pid_present: true, terminated: false, reaps: 0 }
}

/// One step of the lifecycle protocol.
pub open spec fn model_step(m: ProcessModel, op: HandleOp) -> ProcessModel {
    match op {
        HandleOp::TryKill => {
            if m.pid_present {
                ProcessModel { terminated: true, ..m }
            } else {
                m
            }
        },
        HandleOp::Finish => {
            if m.pid_present {
                ProcessModel { pid_present: false, terminated: true, reaps: m.reaps + 1 }
            } else {
                m
            }
        },
    }
}

/// The state after a whole sequence of operations.
pub open spec fn model_run(m: ProcessModel, ops: Seq<HandleOp>) -> ProcessModel
    decreases ops.len(),
{
    if ops.len() == 0 {
        m
    } else {
        model_run(model_step(m, ops[0]), ops.drop_first())
    }
}

/// Killing is idempotent: a second `TryKill` changes nothing, whatever
/// state the first one found.
pub proof fn lemma_try_kill_idempotent(m: ProcessModel)
    ensures
        model_step(model_step(m, HandleOp::TryKill), HandleOp::TryKill) == model_step(
            m,
            HandleOp::TryKill,
        ),
{
}

/// A `TryKill` never reaps.
pub proof fn lemma_try_kill_never_reaps(m: ProcessModel)
    ensures
        model_step(m, HandleOp::TryKill).reaps == m.reaps,
{
}

/// Any number of further `TryKill` requests after the first change
/// nothing at all.
pub proof fn lemma_try_kill_any_number(m: ProcessModel, n: nat)
    ensures
        model_run(model_step(m, HandleOp::TryKill), Seq::new(n, |i: int| HandleOp::TryKill))
            == model_step(m, HandleOp::TryKill),
    decreases n,
{
    let once = model_step(m, HandleOp::TryKill);
    let ops = Seq::new(n, |i: int| HandleOp::TryKill);
    if n > 0 {
        lemma_try_kill_idempotent(m);
        lemma_try_kill_any_number(m, (n - 1) as nat);
        assert(ops.drop_first() =~= Seq::new((n - 1) as nat, |i: int| HandleOp::TryKill));
        assert(model_run(once, ops) == model_run(model_step(once, HandleOp::TryKill), ops.drop_first()));
    }
}

/// Whether a sequence of operations contains the owner's `Finish`.
pub open spec fn has_finish(ops: Seq<HandleOp>) -> bool {
    exists|i: int| 0 <= i < ops.len() && (#[trigger] ops[i]) is Finish
}

/// Every reachable state keeps the child entry exactly until the first
/// reap: the entry is present if and only if nothing was reaped yet,
/// and it is never reaped twice.
pub open spec fn model_inv(m: ProcessModel) -> bool {
    m.reaps == if m.pid_present {
        0int
    } else {
        1int
    }
}

proof fn lemma_step_preserves_inv(m: ProcessModel, op: HandleOp)
    requires
        model_inv(m),
    ensures
        model_inv(model_step(m, op)),
{
}

/// Exactly one reap: from the spawned state, any sequence of kill
/// requests and owner finishes reaps the child entry once when a
/// `Finish` occurs in it, and never more than once.
pub proof fn lemma_exactly_one_reap(ops: Seq<HandleOp>)
    ensures
        model_run(spawned_model(), ops).reaps <= 1,
        has_finish(ops) ==> model_run(spawned_model(), ops).reaps == 1,
{
    lemma_run_reaps(spawned_model(), ops);
}

proof fn lemma_run_reaps(m: ProcessModel, ops: Seq<HandleOp>)
    requires
        model_inv(m),
    ensures
        model_inv(model_run(m, ops)),
        has_finish(ops) ==> !model_run(m, ops).pid_present,
        !m.pid_present ==> !model_run(m, ops).pid_present,
    decreases ops.len(),
{
    if ops.len() > 0 {
        lemma_step_preserves_inv(m, ops[0]);
        lemma_run_reaps(model_step(m, ops[0]), ops.drop_first());
        if has_finish(ops) {
            let i = choose|i: int| 0 <= i < ops.len() && (#[trigger] ops[i]) is Finish;
            if i == 0 {
            } else {
                assert(ops.drop_first()[i - 1] is Finish);
            }
        }
    }
}

// ---------------------------------------------------------------------
// The runtime types.
// ---------------------------------------------------------------------

/// The lock-protected part of a handle: the process identifier, present
/// until the owner takes it away just before reaping.  While a thread
/// holds the lock and sees the identifier, the process has not been
/// reaped, so killing it cannot hit a stranger that reused the number.
type SharedPid = Option<i32>;

/// The lock's invariant: any identifier state is admissible; the
/// protocol below, not the lock, rules the transitions.
pub struct AnyPid;

impl vstd::rwlock::RwLockPredicate<SharedPid> for AnyPid {
    open spec fn inv(self, v: SharedPid) -> bool {
        true
    }
}

/// ChildHandle lets any thread ask a supervised process to terminate.
///
/// Unlike a plain child-process object it is cloneable and shareable
/// between threads; every clone sees the one shared state.
#[derive(Clone)]
pub struct ChildHandle {
    state: Arc<RwLock<SharedPid, AnyPid>>,
    done_hint: Arc<AtomicBool>,
}

impl ChildHandle {
    /// Kills the process behind the handle if it has not been reaped
    /// yet.  Safe to call any number of times, from any thread, before
    /// or after the process ended: killing an already-gone process is a
    /// no-op.  Returns `false` only when the operating system refused
    /// the kill outright, which the caller treats as an unrecoverable
    /// supervision fault.
    pub fn try_kill(&self) -> bool {
        if self.is_useless() {
            return true;
        }
        let (val, write_handle) = self.state.acquire_write();
        // While the lock is held and the identifier is present, the
        // process has not been reaped, so the kill is safe.
        let ok = match val {
            Some(pid) => {
                let ok = kill_process(pid);
                if ok {
                    self.done_hint.store(true, Ordering::Relaxed);
                }
                ok
            },
            None => true,
        };
        write_handle.release_write(val);
        ok
    }

    /// True only once the process is certainly no longer running:
    /// killed, or already waited on.  Never blocks.  A `false` answer
    /// promises nothing: the process may have ended a moment ago.
    pub fn is_useless(&self) -> bool {
        self.done_hint.load(Ordering::Relaxed)
    }
}

/// The sole owner of a spawned process's child entry.  `wait` and
/// `kill_and_reap` each consume the owner, so the entry is reaped
/// exactly once, as `lemma_exactly_one_reap` states of the protocol.
///
/// Verified callers cannot panic between taking ownership and the
/// consuming call, so no destructor fallback is needed; an unverified
/// caller must itself make sure one of the two consuming calls is
/// reached, or the process lingers unreaped.
pub struct OwnedChild {
    pid: i32,
    handle: ChildHandle,
}

impl OwnedChild {
    /// Takes ownership of a freshly spawned process.  The caller hands
    /// over a process identifier that has not been waited on and gives
    /// up every other way of waiting on it.
    pub fn from_pid(pid: i32) -> OwnedChild {
        let state = Arc::new(RwLock::<SharedPid, AnyPid>::new(Some(pid), Ghost(AnyPid)));
        let done_hint = Arc::new(AtomicBool::new(false));
        OwnedChild { pid, handle: ChildHandle { state, done_hint } }
    }

    /// A shared handle to the process, for the watchdog or any other
    /// thread that may need to kill it.
    pub fn get_handle(&self) -> ChildHandle {
        self.handle.clone()
    }

    /// Blocks until the process terminates for any reason, then reaps
    /// it.  Returns `None` when the operating system could not report
    /// an exit status, a supervision fault the caller surfaces as an
    /// error of its own.
    pub fn wait(self) -> Option<ExitStatus> {
        let status = wait_status_peek(self.pid);
        self.finish();
        status
    }

    /// Kills the process and reaps it, without looking at its exit
    /// status: the abandonment path.  After this, every clone of the
    /// handle is a no-op.
    pub fn kill_and_reap(self) {
        self.finish();
    }

    /// The owner's final step: take the identifier out of the shared
    /// state, so no later kill can touch a reused number, then kill and
    /// reap.  The kill is safe because the entry has not been reaped,
    /// and it guarantees termination even when nothing was waited for.
    fn finish(self) {
        let (val, write_handle) = self.handle.state.acquire_write();
        write_handle.release_write(None);
        self.handle.done_hint.store(true, Ordering::Relaxed);
        if let Some(pid) = val {
            kill_process(pid);
            reap_process(pid);
        }
    }
}

// ---------------------------------------------------------------------
// The system calls, through the nix crate.
// ---------------------------------------------------------------------

/// Relies on nix's signal::kill: delivers SIGKILL to the process.  An
/// ESRCH answer means the process is already gone, which callers treat
/// as success; any other refusal gives `false`.
#[verifier::external_body]
fn kill_process(pid: i32) -> bool {
    match nix::sys::signal::kill(
        nix::unistd::Pid::from_raw(pid),
        Some(nix::sys::signal::Signal::SIGKILL),
    ) {
        Ok(()) => true,
        Err(nix::errno::Errno::ESRCH) => true,
        Err(_) => false,
    }
}

/// Relies on nix's sys::wait::waitid with WNOWAIT: blocks until the
/// process terminates and reports how, leaving the child entry in place
/// to be reaped later.  `None` when the status cannot be read or has an
/// unexpected shape — the WSTOPPED flag means a merely stopped child
/// also answers, and its stop status lands here as a supervision
/// fault rather than a termination.
#[verifier::external_body]
fn wait_status_peek(pid: i32) -> Option<ExitStatus> {
    let flags = nix::sys::wait::WaitPidFlag::WEXITED | nix::sys::wait::WaitPidFlag::WSTOPPED
        | nix::sys::wait::WaitPidFlag::WNOWAIT;
    match nix::sys::wait::waitid(nix::sys::wait::Id::Pid(nix::unistd::Pid::from_raw(pid)), flags) {
        Ok(nix::sys::wait::WaitStatus::Exited(_, code)) => Some(ExitStatus::ExitCode(code)),
        Ok(nix::sys::wait::WaitStatus::Signaled(_, signal, _)) => Some(
            ExitStatus::Signalled(signal.as_str().to_owned()),
        ),
        _ => None,
    }
}

/// Relies on nix's sys::wait::waitpid without WNOWAIT: reaps the child
/// entry, letting the operating system release it and reuse the
/// identifier.
#[verifier::external_body]
fn reap_process(pid: i32) -> bool {
    nix::sys::wait::waitpid(nix::unistd::Pid::from_raw(pid), None).is_ok()
}

} // verus!
