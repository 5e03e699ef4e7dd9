use vstd::prelude::*;
use crate::executor::signal_text;
use crate::formatted_error::FormattedError;
use crate::owned_child::ExitStatus;
use crate::strutil::{contains_seq, dec_seq_signed, dec_value, esc_free, i64_to_string,
    is_dec_numeral, is_esc_free, lemma_contains_left, lemma_contains_right, lemma_contains_self,
    lemma_contains_trans, line_seqs, parse_u64, split_ws, views_of, ws_tokens};
use crate::style::{paint_red, paint_white};
use crate::test_errors::{ExecutionError, ExecutionMetrics};
use crate::Millis;

verus! {

// ---------------------------------------------------------------------
// Interpreting a supervisor run.
//
// The sandbox supervisor reports on a side channel one line of
// whitespace-separated fields: field 0 is a status token, field 2 the
// elapsed time in milliseconds, field 4 the peak memory in kibibytes.
// Anything it printed on its own standard error is an infrastructure
// diagnosis, except one known allocation-failure signature that really
// means the subject ran out of memory.
// ---------------------------------------------------------------------

/// The diagnostic a C++ program prints when an allocation fails before
/// the supervisor's own accounting can see it.
pub open spec fn bad_alloc_text() -> Seq<char> {
    "terminate called after throwing an instance of 'std::bad_alloc'\n  what():  std::bad_alloc\n"@
}

/// The message for a report with fewer than six fields.
pub open spec fn too_short_text(report: Seq<char>) -> Seq<char> {
    "The sio2jail output is too short: "@ + report
}

/// The message for a report whose time or memory field is not a plain
/// number fitting 64 bits.
pub open spec fn bad_fields_text(report: Seq<char>) -> Seq<char> {
    "The sio2jail output is invalid: "@ + report
}

/// The message for a supervisor process that exited with a non-zero
/// code of its own.
pub open spec fn bad_exit_code_text(code: int) -> Seq<char> {
    "Sio2jail returned an invalid status code: "@ + dec_seq_signed(code)
}

/// The message for an unknown status token.
pub open spec fn bad_status_text(token: Seq<char>) -> Seq<char> {
    "Sio2jail returned an invalid status in the output: "@ + token
}

/// The detail attached to a runtime-error outcome: the report's second
/// line, where it has one, else nothing at all.
pub open spec fn runtime_detail_text(report: Seq<char>) -> Seq<char> {
    if line_seqs(report).len() >= 2 {
        "- "@ + line_seqs(report)[1]
    } else {
        Seq::<char>::empty()
    }
}

/// Both measurements missing.
pub open spec fn metrics_empty(m: ExecutionMetrics) -> bool {
    m.time is None && m.memory_kibibytes is None
}

/// A token parses as a u64.
pub open spec fn field_fits(token: Seq<char>) -> bool {
    is_dec_numeral(token) && dec_value(token) <= u64::MAX
}

/// What `interpret_sio2jail_run` must return, clause by clause:
/// the supervisor's own diagnostics win, then the report's shape is
/// checked, then the supervisor's exit, then the status token decides.
pub open spec fn sio2jail_expected(
    supervisor_status: ExitStatus,
    stderr: Seq<char>,
    report: Seq<char>,
    memory_limit: u64,
    r: (ExecutionMetrics, Result<(), ExecutionError>),
) -> bool {
    let toks = ws_tokens(report);
    if stderr.len() > 0 {
        if stderr == bad_alloc_text() {
            r.0.time is None && r.0.memory_kibibytes == Some(memory_limit) && (r.1 matches Err(
                ExecutionError::MemoryLimitExceeded,
            ))
        } else {
            metrics_empty(r.0) && (r.1 matches Err(ExecutionError::Sio2jailError(s)) && s@
                == stderr)
        }
    } else if toks.len() < 6 {
        metrics_empty(r.0) && (r.1 matches Err(ExecutionError::Sio2jailError(s)) && s@
            == too_short_text(report))
    } else if !(field_fits(toks[2]) && field_fits(toks[4])) {
        metrics_empty(r.0) && (r.1 matches Err(ExecutionError::Sio2jailError(s)) && s@
            == bad_fields_text(report))
    } else {
        r.0.time == Some(dec_value(toks[2]) as u64) && r.0.memory_kibibytes == Some(
            dec_value(toks[4]) as u64,
        ) && match supervisor_status {
            ExitStatus::Signalled(d) => (r.1 matches Err(ExecutionError::RuntimeError(s)) && s@
                == signal_text(d@)),
            ExitStatus::ExitCode(code) => {
                if code != 0 {
                    r.1 matches Err(ExecutionError::Sio2jailError(s)) && s@ == bad_exit_code_text(
                        code as int,
                    )
                } else if toks[0] == "OK"@ {
                    r.1 is Ok
                } else if toks[0] == "RE"@ || toks[0] == "RV"@ {
                    r.1 matches Err(ExecutionError::RuntimeError(s)) && s@ == runtime_detail_text(
                        report,
                    )
                } else if toks[0] == "TLE"@ {
                    r.1 matches Err(ExecutionError::TimedOut)
                } else if toks[0] == "MLE"@ {
                    r.1 matches Err(ExecutionError::MemoryLimitExceeded)
                } else if toks[0] == "OLE"@ {
                    r.1 matches Err(ExecutionError::RuntimeError(s)) && s@
                        == "- output limit exceeded"@
                } else {
                    r.1 matches Err(ExecutionError::Sio2jailError(s)) && s@ == bad_status_text(
                        toks[0],
                    )
                }
            },
        }
    }
}

fn string_is(a: &String, b: &str) -> (r: bool)
    ensures
        r == (a@ == b@),
{
    let owned: String = b.to_owned();
    *a == owned
}

/// Reads one supervisor run: its own exit status, what it printed on
/// standard error, and the report line from the side channel.  Yields
/// the measured metrics and the outcome for the subject program.
///
/// The time and memory fields are read as whole decimal numbers — the
/// report gives milliseconds and kibibytes as integers — so a
/// fractional field counts as an invalid report, deliberately.
pub fn interpret_sio2jail_run(
    supervisor_status: &ExitStatus,
    stderr_text: &str,
    report: &str,
    memory_limit: u64,
) -> (r: (ExecutionMetrics, Result<(), ExecutionError>))
    ensures
        sio2jail_expected(*supervisor_status, stderr_text@, report@, memory_limit, r),
{
    if stderr_text.unicode_len() > 0 {
        let stderr_owned: String = stderr_text.to_owned();
        let bad_alloc: String =
            "terminate called after throwing an instance of 'std::bad_alloc'\n  what():  std::bad_alloc\n".to_owned();
        if stderr_owned == bad_alloc {
            return (
                ExecutionMetrics { time: None, memory_kibibytes: Some(memory_limit) },
                Err(ExecutionError::MemoryLimitExceeded),
            );
        }
        return (ExecutionMetrics::empty(), Err(ExecutionError::Sio2jailError(stderr_owned)));
    }
    let tokens = split_ws(report);
    if tokens.len() < 6 {
        let mut text = "The sio2jail output is too short: ".to_owned();
        text.append(report);
        return (ExecutionMetrics::empty(), Err(ExecutionError::Sio2jailError(text)));
    }
    let time = parse_u64(tokens[2].as_str());
    let memory = parse_u64(tokens[4].as_str());
    let (time, memory) = match (time, memory) {
        (Some(t), Some(m)) => (t, m),
        _ => {
            let mut text = "The sio2jail output is invalid: ".to_owned();
            text.append(report);
            return (ExecutionMetrics::empty(), Err(ExecutionError::Sio2jailError(text)));
        },
    };
    let metrics = ExecutionMetrics { time: Some(time), memory_kibibytes: Some(memory) };
    match supervisor_status {
        ExitStatus::Signalled(description) => {
            let mut text = "- the process was terminated with the following error:\n".to_owned();
            text.append(description.as_str());
            (metrics, Err(ExecutionError::RuntimeError(text)))
        },
        ExitStatus::ExitCode(code) => {
            if *code != 0 {
                let mut text = "Sio2jail returned an invalid status code: ".to_owned();
                text.append(i64_to_string(*code as i64).as_str());
                return (metrics, Err(ExecutionError::Sio2jailError(text)));
            }
            let status_token = &tokens[0];
            if string_is(status_token, "OK") {
                (metrics, Ok(()))
            } else if string_is(status_token, "RE") || string_is(status_token, "RV") {
                let detail: String = match crate::strutil::second_line(report) {
                    Some(message) => {
                        let mut text = "- ".to_owned();
                        text.append(message.as_str());
                        text
                    },
                    None => String::new(),
                };
                (metrics, Err(ExecutionError::RuntimeError(detail)))
            } else if string_is(status_token, "TLE") {
                (metrics, Err(ExecutionError::TimedOut))
            } else if string_is(status_token, "MLE") {
                (metrics, Err(ExecutionError::MemoryLimitExceeded))
            } else if string_is(status_token, "OLE") {
                (metrics, Err(ExecutionError::RuntimeError("- output limit exceeded".to_owned())))
            } else {
                let mut text = "Sio2jail returned an invalid status in the output: ".to_owned();
                text.append(status_token.as_str());
                (metrics, Err(ExecutionError::Sio2jailError(text)))
            }
        },
    }
}

/// What a whole supervised run must yield.  A wait that answered
/// nothing is a sandbox fault; a supervisor killed at or past the
/// deadline is this test's timeout, whatever the report says; anything
/// else is read from the report.
pub open spec fn supervised_expected(
    supervisor_status: Option<ExitStatus>,
    elapsed: Millis,
    timeout: Millis,
    stderr: Seq<char>,
    report: Seq<char>,
    memory_limit: u64,
    r: (ExecutionMetrics, Result<(), ExecutionError>),
) -> bool {
    match supervisor_status {
        None => metrics_empty(r.0) && (r.1 matches Err(ExecutionError::Sio2jailError(s)) && s@
            == "Sio2jail could not be awaited"@),
        Some(status) => {
            if status matches ExitStatus::Signalled(_) && elapsed >= timeout {
                r.0.time == Some(elapsed) && r.0.memory_kibibytes is None && (r.1 matches Err(
                    ExecutionError::TimedOut,
                ))
            } else {
                sio2jail_expected(status, stderr, report, memory_limit, r)
            }
        },
    }
}

/// Judges one whole supervised run: the supervisor's awaited exit, the
/// wall-clock it took, and everything it reported.  The deadline rule
/// mirrors the direct executor's: a supervisor killed at or past the
/// deadline is the test's timeout.
pub fn interpret_supervised_run(
    supervisor_status: &Option<ExitStatus>,
    elapsed: Millis,
    timeout: Millis,
    stderr_text: &str,
    report: &str,
    memory_limit: u64,
) -> (r: (ExecutionMetrics, Result<(), ExecutionError>))
    ensures
        supervised_expected(
            *supervisor_status,
            elapsed,
            timeout,
            stderr_text@,
            report@,
            memory_limit,
            r,
        ),
{
    match supervisor_status {
        None => (
            ExecutionMetrics::empty(),
            Err(ExecutionError::Sio2jailError("Sio2jail could not be awaited".to_owned())),
        ),
        Some(status) => {
            let timed_out = match status {
                ExitStatus::Signalled(_) => elapsed >= timeout,
                _ => false,
            };
            if timed_out {
                (
                    ExecutionMetrics { time: Some(elapsed), memory_kibibytes: None },
                    Err(ExecutionError::TimedOut),
                )
            } else {
                interpret_sio2jail_run(status, stderr_text, report, memory_limit)
            }
        },
    }
}

// ---------------------------------------------------------------------
// Locating and preparing the supervisor.
// ---------------------------------------------------------------------

#[verifier::external_type_specification]
#[verifier::external_body]
pub struct ExBaseDirs(directories::BaseDirs);

/// Relies on directories' BaseDirs::new: the user's base directories,
/// where the operating system reports a home.
#[verifier::external_body]
fn base_dirs_new() -> Option<directories::BaseDirs> {
    directories::BaseDirs::new()
}

/// Relies on directories' BaseDirs::executable_dir: the user's
/// executable directory, where the platform defines one and its path is
/// plain text.
#[verifier::external_body]
fn executable_dir_of(dirs: &directories::BaseDirs) -> Option<String> {
    dirs.executable_dir().and_then(|p| p.to_str()).map(|s| s.to_owned())
}

/// Relies on std's Path::exists: whether anything sits at `path` on
/// disk right now.
#[verifier::external_body]
fn path_exists(path: &str) -> bool {
    std::path::Path::new(path).exists()
}

/// The words every location failure carries.
pub open spec fn not_found_marker() -> Seq<char> {
    "Sio2jail could not be found"@
}

/// The three ways the supervisor can fail to be found.
pub open spec fn no_home_text() -> Seq<char> {
    "No valid home directory path could be retrieved from the operating system. "@
        + not_found_marker()
}

pub open spec fn no_executable_dir_text() -> Seq<char> {
    "Couldn't locate the user's executable directory. "@ + not_found_marker()
}

pub open spec fn not_found_text(path: Seq<char>) -> Seq<char> {
    not_found_marker() + " at "@ + path
}

/// Any of the three location-failure messages carries the marker.
pub proof fn lemma_path_error_contains_marker(e: Seq<char>)
    requires
        e == no_home_text() || e == no_executable_dir_text() || (exists|p: Seq<char>|
            e == #[trigger] not_found_text(p)),
    ensures
        contains_seq(e, not_found_marker()),
{
    lemma_contains_self(not_found_marker());
    if e == no_home_text() {
        lemma_contains_right(
            "No valid home directory path could be retrieved from the operating system. "@,
            not_found_marker(),
            not_found_marker(),
        );
    } else if e == no_executable_dir_text() {
        lemma_contains_right(
            "Couldn't locate the user's executable directory. "@,
            not_found_marker(),
            not_found_marker(),
        );
    } else {
        let p = choose|p: Seq<char>| e == #[trigger] not_found_text(p);
        lemma_contains_left(not_found_marker(), " at "@, not_found_marker());
        lemma_contains_left(not_found_marker() + " at "@, p, not_found_marker());
    }
}

/// Looks for the `sio2jail` binary in the user's executable directory.
/// On success the returned path ends in `/sio2jail`; on failure the
/// message says which step failed.
pub fn get_sio2jail_path() -> (r: Result<String, String>)
    ensures
        r matches Ok(p) ==> contains_seq(p@, "/sio2jail"@),
        r matches Err(e) ==> e@ == no_home_text() || e@ == no_executable_dir_text() || (exists|
            d: Seq<char>,
        | e@ == not_found_text(d + "/sio2jail"@)),
{
    let dirs = match base_dirs_new() {
        Some(dirs) => dirs,
        None => {
            let mut message =
                "No valid home directory path could be retrieved from the operating system. ".to_owned();
            message.append("Sio2jail could not be found");
            return Err(message);
        },
    };
    let dir = match executable_dir_of(&dirs) {
        Some(dir) => dir,
        None => {
            let mut message = "Couldn't locate the user's executable directory. ".to_owned();
            message.append("Sio2jail could not be found");
            return Err(message);
        },
    };
    let mut candidate = dir;
    let ghost dir_view = candidate@;
    candidate.append("/sio2jail");
    if !path_exists(candidate.as_str()) {
        let mut message = "Sio2jail could not be found".to_owned();
        message.append(" at ");
        message.append(candidate.as_str());
        proof {
            assert(message@ == not_found_text(dir_view + "/sio2jail"@));
        }
        return Err(message);
    }
    proof {
        crate::strutil::lemma_contains_self("/sio2jail"@);
        crate::strutil::lemma_contains_right(dir_view, "/sio2jail"@, "/sio2jail"@);
    }
    Ok(candidate)
}

/// Runs the subject inside the external sandbox supervisor; the spawn
/// itself happens at the caller's edge, and `interpret_sio2jail_run`
/// reads what came back.
pub struct Sio2jailRunner {
    pub timeout_ms: Millis,
    pub executable_path: String,
    pub sio2jail_path: String,
    pub memory_limit: u64,
}

impl Sio2jailRunner {
    /// Builds a runner, failing with a plain message when the
    /// supervisor binary cannot be found.
    pub fn init(timeout_ms: Millis, executable_path: String, memory_limit: u64) -> (r: Result<
        Sio2jailRunner,
        String,
    >)
        ensures
            r matches Ok(runner) ==> runner.timeout_ms == timeout_ms && runner.memory_limit
                == memory_limit && runner.executable_path@ == executable_path@ && contains_seq(
                runner.sio2jail_path@,
                "/sio2jail"@,
            ),
            r matches Err(e) ==> e@ == no_home_text() || e@ == no_executable_dir_text() || (exists|
                p: Seq<char>,
            | e@ == #[trigger] not_found_text(p)),
    {
        match get_sio2jail_path() {
            Ok(sio2jail_path) => Ok(
                Sio2jailRunner { timeout_ms, executable_path, sio2jail_path, memory_limit },
            ),
            Err(message) => Err(message),
        }
    }
}

/// The remediation the user is told to run when the kernel refuses the
/// sandbox's instrumentation.
pub open spec fn perf_remedy_text() -> Seq<char> {
    "sudo sysctl -w kernel.perf_event_paranoid=-1"@
}

/// The sandboxed executor: like `Sio2jailRunner`, plus a one-time check
/// that the kernel lets the supervisor's instrumentation run.
pub struct Sio2jailExecutor {
    pub timeout_ms: Millis,
    pub executable_path: String,
    pub sio2jail_path: String,
    pub memory_limit: u64,
}

impl Sio2jailExecutor {
    /// Builds the executor.  `perf_available` is the outcome of the
    /// caller's probe of the kernel's performance-counter permission;
    /// without it the executor refuses to start and the error names the
    /// exact command that grants it.
    pub fn init_and_test(
        timeout_ms: Millis,
        executable_path: String,
        memory_limit: u64,
        perf_available: bool,
    ) -> (r: Result<Sio2jailExecutor, FormattedError>)
        ensures
            !perf_available ==> (r matches Err(e) && contains_seq(e@, perf_remedy_text())),
            perf_available ==> (r matches Err(e) ==> contains_seq(e@, not_found_marker())),
            r matches Ok(ex) ==> perf_available && ex.timeout_ms == timeout_ms && ex.memory_limit
                == memory_limit && ex.executable_path@ == executable_path@ && contains_seq(
                ex.sio2jail_path@,
                "/sio2jail"@,
            ),
    {
        if !perf_available {
            let mut message = paint_red(
                "You need to run the following command to use toster with sio2jail.\nYou may also put this option in your /etc/sysctl.conf.\nThis will make the setting persist across reboots.",
            );
            message.append("\n");
            let remedy = paint_white("sudo sysctl -w kernel.perf_event_paranoid=-1");
            proof {
                reveal_strlit("sudo sysctl -w kernel.perf_event_paranoid=-1");
                assert(esc_free(perf_remedy_text()));
                crate::strutil::lemma_contains_right(message@, remedy@, perf_remedy_text());
            }
            message.append(remedy.as_str());
            return Err(FormattedError::preformatted(message));
        }
        let sio2jail_path = match get_sio2jail_path() {
            Ok(path) => path,
            Err(message) => {
                proof {
                    lemma_path_error_contains_marker(message@);
                }
                // Style the message where styling keeps it whole; an
                // escape-bearing path is passed through unstyled.
                if is_esc_free(message.as_str()) {
                    let formatted = FormattedError::from_str(message.as_str());
                    proof {
                        lemma_contains_trans(formatted@, message@, not_found_marker());
                    }
                    return Err(formatted);
                }
                return Err(FormattedError::preformatted(message));
            },
        };
        Ok(Sio2jailExecutor { timeout_ms, executable_path, sio2jail_path, memory_limit })
    }
}

} // verus!
