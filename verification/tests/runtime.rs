use toster::executor::SimpleExecutor;
use toster::flag::Flag;
use toster::formatted_error::FormattedError;
use toster::owned_child::ExitStatus;
use toster::pipes::decode_pipe_output;
use toster::test_errors::{ExecutionError, ExecutionMetrics, TestError};
use toster::test_result::TestResult;
use toster::test_summary::TestSummary;
use toster::watchdog::remaining_millis;
use toster::sio2jail::interpret_supervised_run;

#[test]
fn flag_starts_unset_and_raises_once() {
    let flag = Flag::new();
    assert!(!flag.was_set());
    flag.raise();
    assert!(flag.was_set());
    flag.raise();
    assert!(flag.was_set());
}

#[test]
fn flag_timed_wait() {
    let flag = Flag::new();
    // Nothing raises the flag: the wait must run out.
    assert!(flag.wait_with_timeout(10));
    flag.raise();
    // A raised flag wakes the wait at once.
    assert!(!flag.wait_with_timeout(10_000));
    flag.wait();
}

#[test]
fn watchdog_wait_budget() {
    assert_eq!(remaining_millis(0, 5000), Some(5000));
    assert_eq!(remaining_millis(4999, 5000), Some(1));
    assert_eq!(remaining_millis(5000, 5000), None);
    assert_eq!(remaining_millis(9000, 5000), None);
}

#[test]
fn exit_code_classification() {
    assert!(SimpleExecutor::map_status_code(&ExitStatus::ExitCode(0)).is_ok());
    match SimpleExecutor::map_status_code(&ExitStatus::ExitCode(7)).unwrap_err() {
        ExecutionError::RuntimeError(s) => {
            assert_eq!(s, "- the program returned a non-zero return code: 7");
        }
        _ => panic!("a non-zero exit must be a runtime error"),
    }
    match SimpleExecutor::map_status_code(&ExitStatus::Signalled("SIGSEGV".to_string()))
        .unwrap_err()
    {
        ExecutionError::RuntimeError(s) => {
            assert_eq!(s, "- the process was terminated with the following error:\nSIGSEGV");
        }
        _ => panic!("a signalled death must be a runtime error"),
    }
}

#[test]
fn timeout_rule() {
    // Killed at or past the deadline: a timeout, never a runtime error.
    let killed = ExitStatus::Signalled("SIGKILL".to_string());
    assert!(matches!(
        SimpleExecutor::classify_status(&killed, 1050, 1000).unwrap_err(),
        ExecutionError::TimedOut
    ));
    assert!(matches!(
        SimpleExecutor::classify_status(&killed, 1000, 1000).unwrap_err(),
        ExecutionError::TimedOut
    ));
    // A crash well before the deadline stays a runtime error.
    assert!(matches!(
        SimpleExecutor::classify_status(&killed, 30, 1000).unwrap_err(),
        ExecutionError::RuntimeError(_)
    ));
    // A clean exit past the deadline is still a success: the process
    // ended by itself.
    assert!(SimpleExecutor::classify_status(&ExitStatus::ExitCode(0), 2000, 1000).is_ok());
}

#[test]
fn error_wording() {
    assert_eq!(ExecutionError::TimedOut.to_string(), "Timed out");
    assert_eq!(ExecutionError::MemoryLimitExceeded.to_string(), "Memory limit exceeded");
    assert_eq!(
        ExecutionError::RuntimeError("- details".to_string()).to_string(),
        "Runtime error - details"
    );
    assert_eq!(
        ExecutionError::Sio2jailError("broken".to_string()).to_string(),
        "Sio2jail error: broken"
    );
    assert_eq!(ExecutionError::PipeError.to_string(), "Failed to read program output");
    assert_eq!(
        ExecutionError::OutputNotUtf8.to_string(),
        "The output contained invalid characters"
    );
    assert_eq!(
        ExecutionError::IncorrectCheckerFormat("no outcome".to_string()).to_string(),
        "The checker output didn't follow the Toster checker format - no outcome"
    );
}

#[test]
fn test_error_listing() {
    let listing = TestError::ProgramError { error: ExecutionError::TimedOut }.to_string("17");
    assert!(listing.contains("Test 17:"));
    assert!(listing.contains("Timed out"));

    let listing = TestError::Cancelled.to_string("a");
    assert!(listing.contains("Cancelled"));

    let listing =
        TestError::CheckerError { error: ExecutionError::PipeError }.to_string("b");
    assert!(listing.contains("Test b encountered a checker error:"));
}

#[test]
fn test_result_accessors() {
    let correct = TestResult::Correct { test_name: "one".to_string() };
    assert!(correct.is_correct());
    assert_eq!(correct.test_name(), "one");
    assert_eq!(correct.to_string(), "");

    let wrong = TestResult::Incorrect { test_name: "two".to_string(), error: "diff".to_string() };
    assert!(!wrong.is_correct());
    assert_eq!(wrong.test_name(), "two");
    assert!(wrong.to_string().contains("Test two:"));
    assert!(wrong.to_string().contains("diff"));

    let missing = TestResult::NoOutputFile { test_name: "three".to_string() };
    assert!(!missing.is_correct());
    assert!(missing.to_string().contains("Output file does not exist"));
}

#[test]
fn summary_counts() {
    let mut summary = TestSummary::new(false, 5);
    assert_eq!(summary.total, 5);
    assert_eq!(summary.processed, 0);

    let quick = ExecutionMetrics { time: Some(120), memory_kibibytes: None };
    summary.add_success(&quick, "fast");
    let slow = ExecutionMetrics { time: Some(900), memory_kibibytes: Some(2048) };
    summary.add_success(&slow, "slow");

    summary.add_test_error(
        TestError::ProgramError { error: ExecutionError::TimedOut },
        "late".to_string(),
    );
    summary.add_test_error(
        TestError::Incorrect { error: "diff".to_string() },
        "wrong".to_string(),
    );

    assert_eq!(summary.processed, 4);
    assert_eq!(summary.success, 2);
    assert_eq!(summary.timed_out, 1);
    assert_eq!(summary.incorrect, 1);
    assert_eq!(summary.runtime_error, 0);

    match &summary.slowest_test {
        Some((time, name)) => {
            assert_eq!(*time, 900);
            assert_eq!(name, "slow");
        }
        None => panic!("a measured run must set the slowest test"),
    }
    match &summary.most_memory_used {
        Some((memory, name)) => {
            assert_eq!(*memory, 2048);
            assert_eq!(name, "slow");
        }
        None => panic!("a measured run must set the memory record"),
    }

    let line = summary.format_counts(true);
    assert!(line.contains("2 correct"));
    assert!(line.contains("1 timed out"));
    assert!(line.contains("1 wrong answer"));
    assert!(line.contains("1 not finished"));
}

#[test]
fn summary_errors_in_human_order() {
    let mut summary = TestSummary::new(false, 3);
    summary.add_test_error(
        TestError::ProgramError { error: ExecutionError::TimedOut },
        "test10".to_string(),
    );
    summary.add_test_error(
        TestError::ProgramError { error: ExecutionError::TimedOut },
        "test2".to_string(),
    );
    summary.add_test_error(
        TestError::ProgramError { error: ExecutionError::TimedOut },
        "test1".to_string(),
    );
    let names: Vec<String> = summary.get_errors().iter().map(|(name, _)| name.clone()).collect();
    assert_eq!(names, vec!["test1", "test2", "test10"]);
}

#[test]
fn pipe_decoding() {
    assert!(matches!(decode_pipe_output(None), Err(ExecutionError::PipeError)));
    assert!(matches!(
        decode_pipe_output(Some(vec![0xff, 0xfe])),
        Err(ExecutionError::OutputNotUtf8)
    ));
    assert_eq!(decode_pipe_output(Some(b"3\n".to_vec())).unwrap(), "3\n");
}

#[test]
fn formatted_errors_keep_their_text() {
    let plain = FormattedError::preformatted("already styled".to_string());
    assert_eq!(plain.text(), "already styled");
    let styled = FormattedError::from_str("what went wrong");
    assert!(styled.text().contains("what went wrong"));
}

#[test]
fn metrics_empty_has_nothing() {
    let metrics = ExecutionMetrics::empty();
    assert!(metrics.time.is_none());
    assert!(metrics.memory_kibibytes.is_none());
}

#[test]
fn kill_requests_are_idempotent() {
    // An identifier far beyond any live process: every kill is the
    // already-gone no-op case.
    let child = toster::owned_child::OwnedChild::from_pid(i32::MAX);
    let handle = child.get_handle();
    let second = child.get_handle();
    assert!(handle.try_kill());
    assert!(handle.try_kill());
    assert!(second.try_kill());
    assert!(handle.is_useless());
    assert!(second.is_useless());
    assert!(child.wait().is_none());
}

#[test]
fn watchdog_skips_finished_jobs_without_sleeping() {
    let child = toster::owned_child::OwnedChild::from_pid(i32::MAX);
    let handle = child.get_handle();
    assert!(handle.try_kill());
    let flag = Flag::new();
    let job = toster::watchdog::WatchdogJob {
        handle,
        start: toster::watchdog::instant_now(),
    };
    // A finished job is skipped at once: no timed wait happens even
    // with an enormous timeout.
    assert!(!toster::watchdog::watchdog_step(&job, u64::MAX, &flag));
    child.kill_and_reap();
}

#[test]
fn watchdog_kills_early_on_cancellation() {
    let child = toster::owned_child::OwnedChild::from_pid(i32::MAX);
    let job = toster::watchdog::WatchdogJob {
        handle: child.get_handle(),
        start: toster::watchdog::instant_now(),
    };
    let flag = Flag::new();
    flag.raise();
    // The raised flag wakes the deadline wait at once, and the job's
    // handle is killed regardless of which event woke the thread.
    assert!(toster::watchdog::watchdog_step(&job, 3_600_000, &flag));
    assert!(job.handle.is_useless());
    child.kill_and_reap();
}

#[test]
fn watchdog_kills_after_the_deadline() {
    let child = toster::owned_child::OwnedChild::from_pid(i32::MAX);
    let job = toster::watchdog::WatchdogJob {
        handle: child.get_handle(),
        start: toster::watchdog::instant_now(),
    };
    let flag = Flag::new();
    let slept = toster::watchdog::watchdog_step(&job, 20, &flag);
    assert!(slept);
    assert!(job.handle.is_useless());
    child.kill_and_reap();
}

#[test]
fn missing_wait_answer_is_pinned() {
    match SimpleExecutor::classify_awaited(&None, 10, 1000).unwrap_err() {
        ExecutionError::RuntimeError(s) => {
            assert_eq!(s, "- the process could not be awaited");
        }
        _ => panic!("a missing wait answer must be a runtime error"),
    }
    assert!(SimpleExecutor::classify_awaited(&Some(ExitStatus::ExitCode(0)), 10, 1000).is_ok());
}

#[test]
fn supervised_run_rules() {
    // No answer from the wait: a sandbox fault.
    let (metrics, result) = interpret_supervised_run(&None, 10, 1000, "", "OK 0 1 0 2 0", 4096);
    assert!(metrics.time.is_none());
    match result.unwrap_err() {
        ExecutionError::Sio2jailError(s) => assert_eq!(s, "Sio2jail could not be awaited"),
        _ => panic!("a missing supervisor status must be a sandbox error"),
    }
    // A supervisor killed at the deadline: the test's timeout, whatever
    // the report says.
    let killed = Some(ExitStatus::Signalled("SIGKILL".to_string()));
    let (metrics, result) =
        interpret_supervised_run(&killed, 1200, 1000, "", "OK 0 1 0 2 0", 4096);
    assert_eq!(metrics.time, Some(1200));
    assert!(matches!(result.unwrap_err(), ExecutionError::TimedOut));
    // Otherwise the report decides.
    let fine = Some(ExitStatus::ExitCode(0));
    let (metrics, result) = interpret_supervised_run(&fine, 10, 1000, "", "OK 0 231 0 4576 0", 4096);
    assert_eq!(metrics.time, Some(231));
    assert_eq!(metrics.memory_kibibytes, Some(4576));
    assert!(result.is_ok());
}

#[test]
fn summary_errors_with_unsortable_name() {
    // A digit run of ten or more is beyond the comparator: the listing
    // keeps insertion order, still holding every entry.
    let mut summary = TestSummary::new(false, 2);
    summary.add_test_error(
        TestError::ProgramError { error: ExecutionError::TimedOut },
        "9999999999".to_string(),
    );
    summary.add_test_error(
        TestError::ProgramError { error: ExecutionError::TimedOut },
        "1".to_string(),
    );
    let names: Vec<String> = summary.get_errors().iter().map(|(name, _)| name.clone()).collect();
    assert_eq!(names, vec!["9999999999", "1"]);
}

#[test]
fn sandbox_setup_demands_the_permission() {
    let refused = toster::sio2jail::Sio2jailExecutor::init_and_test(
        5000,
        "program.o".to_string(),
        262144,
        false,
    );
    match refused {
        Err(error) => {
            assert!(error.text().contains("sudo sysctl -w kernel.perf_event_paranoid=-1"));
        }
        Ok(_) => panic!("a refused permission must stop the sandbox setup"),
    }
}
