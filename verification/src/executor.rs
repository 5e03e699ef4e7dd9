use vstd::prelude::*;
use std::time::Instant;
use crate::owned_child::{ExitStatus, OwnedChild};
use crate::strutil::{dec_seq_signed, i64_to_string};
use crate::test_errors::{ExecutionError, ExecutionMetrics};
use crate::watchdog::{elapsed_millis, Watchdog};
use crate::Millis;

verus! {

/// The message reported for a non-zero exit code.
pub open spec fn nonzero_exit_text(code: int) -> Seq<char> {
    "- the program returned a non-zero return code: "@ + dec_seq_signed(code)
}

/// The message reported for a death by signal.
pub open spec fn signal_text(description: Seq<char>) -> Seq<char> {
    "- the process was terminated with the following error:\n"@ + description
}

/// What an execution's outcome must be, given how the process ended and
/// how its running time compares with the allowed timeout.  The
/// executor, not the watchdog, decides "timed out": a process that died
/// from a signal on or after the deadline counts as killed by the
/// watchdog, and only that counts as a timeout.
pub open spec fn expected_outcome(
    status: ExitStatus,
    elapsed: Millis,
    timeout: Millis,
    r: Result<(), ExecutionError>,
) -> bool {
    match status {
        ExitStatus::ExitCode(code) => {
            if code == 0 {
                r is Ok
            } else {
                r matches Err(ExecutionError::RuntimeError(s)) && s@ == nonzero_exit_text(
                    code as int,
                )
            }
        },
        ExitStatus::Signalled(description) => {
            if elapsed >= timeout {
                r matches Err(ExecutionError::TimedOut)
            } else {
                r matches Err(ExecutionError::RuntimeError(s)) && s@ == signal_text(description@)
            }
        },
    }
}

/// The message reported when the operating system would not hand back
/// an exit status: a supervision fault, surfaced as the test's error.
pub open spec fn wait_failed_text() -> Seq<char> {
    "- the process could not be awaited"@
}

/// What an execution's outcome must be once the wait has answered,
/// including a wait that answered nothing.
pub open spec fn awaited_outcome(
    status: Option<ExitStatus>,
    elapsed: Millis,
    timeout: Millis,
    r: Result<(), ExecutionError>,
) -> bool {
    match status {
        Some(status) => expected_outcome(status, elapsed, timeout, r),
        None => r matches Err(ExecutionError::RuntimeError(s)) && s@ == wait_failed_text(),
    }
}

/// Runs the subject program directly and supervises it with the shared
/// watchdog; the spawn itself happens at the caller's edge and is
/// handed in as an `OwnedChild`.
pub struct SimpleExecutor {
    /// How long one execution may run, in milliseconds.
    pub timeout_ms: Millis,
    /// The path of the executable under test.
    pub executable_path: String,
}

impl SimpleExecutor {
    /// Turns an exit status into the outcome, without the timeout rule:
    /// exit code zero is success, everything else a runtime error.
    pub fn map_status_code(status: &ExitStatus) -> (r: Result<(), ExecutionError>)
        ensures
            expected_outcome(*status, 0, 1, r),
    {
        match status {
            ExitStatus::ExitCode(code) => {
                if *code == 0 {
                    Ok(())
                } else {
                    let mut text = "- the program returned a non-zero return code: ".to_owned();
                    text.append(i64_to_string(*code as i64).as_str());
                    Err(ExecutionError::RuntimeError(text))
                }
            },
            ExitStatus::Signalled(description) => {
                let mut text = "- the process was terminated with the following error:\n"
                    .to_owned();
                text.append(description.as_str());
                Err(ExecutionError::RuntimeError(text))
            },
        }
    }

    /// The outcome for a finished process, with the timeout rule: a
    /// death by signal at or past the deadline is a timeout, never a
    /// runtime error.
    pub fn classify_status(status: &ExitStatus, elapsed: Millis, timeout: Millis) -> (r: Result<
        (),
        ExecutionError,
    >)
        ensures
            expected_outcome(*status, elapsed, timeout, r),
    {
        match status {
            ExitStatus::Signalled(_) if elapsed >= timeout => Err(ExecutionError::TimedOut),
            _ => Self::map_status_code(status),
        }
    }

    /// The outcome for what a wait handed back, the missing answer
    /// included.
    pub fn classify_awaited(status: &Option<ExitStatus>, elapsed: Millis, timeout: Millis) -> (r:
        Result<(), ExecutionError>)
        ensures
            awaited_outcome(*status, elapsed, timeout, r),
    {
        match status {
            Some(status) => Self::classify_status(status, elapsed, timeout),
            None => Err(
                ExecutionError::RuntimeError("- the process could not be awaited".to_owned()),
            ),
        }
    }

    /// Blocks until the spawned process ends, reaps it, and classifies
    /// the outcome.  `start` is the clock reading taken at the spawn;
    /// the measured wall-clock time is always reported.
    pub fn wait_for_child(&self, child: OwnedChild, start: Instant) -> (r: (
        ExecutionMetrics,
        Result<(), ExecutionError>,
    ))
        ensures
            r.0.time is Some,
            r.0.memory_kibibytes is None,
    {
        let status = child.wait();
        let elapsed = elapsed_millis(&start);
        let metrics = ExecutionMetrics { time: Some(elapsed), memory_kibibytes: None };
        let outcome = Self::classify_awaited(&status, elapsed, self.timeout_ms);
        (metrics, outcome)
    }

    /// Supervises one spawned process from registration to outcome:
    /// the handle goes to the watchdog before this thread blocks, so a
    /// timeout elapsing during the wait is honored.
    pub fn execute(&self, child: OwnedChild, watchdog: &Watchdog, start: Instant) -> (r: (
        ExecutionMetrics,
        Result<(), ExecutionError>,
    ))
        ensures
            r.0.time is Some,
            r.0.memory_kibibytes is None,
    {
        watchdog.add_handle(child.get_handle());
        self.wait_for_child(child, start)
    }
}

} // verus!
