use vstd::prelude::*;
use crate::strutil::{contains_seq, esc_free, lemma_contains_left, lemma_contains_right,
    lemma_contains_self};
use crate::style::{paint_blue, paint_bold, paint_red, paint_yellow};
use crate::Millis;

verus! {

/// What one execution of the subject program measured.  A field is
/// `None` when the backend could not measure it.
pub struct ExecutionMetrics {
    /// Wall-clock (or sandbox-reported) running time, in milliseconds.
    pub time: Option<Millis>,
    /// Peak memory use in kibibytes, reported by the sandbox alone.
    pub memory_kibibytes: Option<u64>,
}

impl ExecutionMetrics {
    /// Metrics of an execution that could not be measured at all.
    pub fn empty() -> (r: ExecutionMetrics)
        ensures
            r.time is None,
            r.memory_kibibytes is None,
    {
        ExecutionMetrics { time: None, memory_kibibytes: None }
    }
}

/// Why one test's execution failed.  Exactly one variant applies to a
/// failed execution.
#[derive(Debug)]
pub enum ExecutionError {
    TimedOut,
    MemoryLimitExceeded,
    RuntimeError(String),
    Sio2jailError(String),
    PipeError,
    OutputNotUtf8,
    IncorrectCheckerFormat(String),
}

/// The exact line of text that stands for an execution error.
pub open spec fn error_text(e: ExecutionError) -> Seq<char> {
    match e {
        ExecutionError::TimedOut => "Timed out"@,
        ExecutionError::MemoryLimitExceeded => "Memory limit exceeded"@,
        ExecutionError::RuntimeError(s) => "Runtime error "@ + s@,
        ExecutionError::Sio2jailError(s) => "Sio2jail error: "@ + s@,
        ExecutionError::PipeError => "Failed to read program output"@,
        ExecutionError::OutputNotUtf8 => "The output contained invalid characters"@,
        ExecutionError::IncorrectCheckerFormat(s) => {
            "The checker output didn't follow the Toster checker format - "@ + s@
        },
    }
}

impl ExecutionError {
    /// Writes the error as one plain line.
    pub fn to_string(&self) -> (r: String)
        ensures
            r@ == error_text(*self),
    {
        match self {
            ExecutionError::TimedOut => "Timed out".to_owned(),
            ExecutionError::MemoryLimitExceeded => "Memory limit exceeded".to_owned(),
            ExecutionError::RuntimeError(s) => {
                let mut r = "Runtime error ".to_owned();
                r.append(s.as_str());
                r
            },
            ExecutionError::Sio2jailError(s) => {
                let mut r = "Sio2jail error: ".to_owned();
                r.append(s.as_str());
                r
            },
            ExecutionError::PipeError => "Failed to read program output".to_owned(),
            ExecutionError::OutputNotUtf8 => "The output contained invalid characters".to_owned(),
            ExecutionError::IncorrectCheckerFormat(s) => {
                let mut r = "The checker output didn't follow the Toster checker format - "
                    .to_owned();
                r.append(s.as_str());
                r
            },
        }
    }
}

/// Why one test failed, as recorded in the summary.
pub enum TestError {
    /// The output differed from the expected one; `error` carries the
    /// rendered difference.
    Incorrect { error: String },
    /// The subject program's execution failed.
    ProgramError { error: ExecutionError },
    /// The checker's execution failed.
    CheckerError { error: ExecutionError },
    /// No expected-output file exists for the test.
    NoOutputFile,
    /// Testing was interrupted before this test finished.
    Cancelled,
}

/// The heading placed above a test's error listing.
pub open spec fn test_heading(test_name: Seq<char>) -> Seq<char> {
    "Test "@ + test_name + ":\n"@
}

/// The heading used when the checker failed on a test.
pub open spec fn checker_heading(test_name: Seq<char>) -> Seq<char> {
    "Test "@ + test_name + " encountered a checker error:\n"@
}

/// The body of a test error's listing, before styling.
pub open spec fn test_error_body(e: TestError) -> Seq<char> {
    match e {
        TestError::Incorrect { error } => error@,
        TestError::ProgramError { error } => error_text(error),
        TestError::CheckerError { error } => error_text(error),
        TestError::NoOutputFile => "Output file does not exist"@,
        TestError::Cancelled => "Cancelled"@,
    }
}

/// The heading a test error is listed under.
pub open spec fn test_error_heading(e: TestError, test_name: Seq<char>) -> Seq<char> {
    match e {
        TestError::CheckerError { .. } => checker_heading(test_name),
        _ => test_heading(test_name),
    }
}

impl TestError {
    fn heading(&self, test_name: &str) -> (r: String)
        ensures
            r@ == test_error_heading(*self, test_name@),
    {
        let mut h = "Test ".to_owned();
        h.append(test_name);
        match self {
            TestError::CheckerError { .. } => h.append(" encountered a checker error:\n"),
            _ => h.append(":\n"),
        }
        h
    }

    /// Writes the error's full listing for the test called `test_name`:
    /// a styled heading followed by the error's body.
    pub fn to_string(&self, test_name: &str) -> (r: String)
        ensures
            esc_free(test_error_heading(*self, test_name@)) ==> contains_seq(
                r@,
                test_error_heading(*self, test_name@),
            ),
            esc_free(test_error_body(*self)) ==> contains_seq(r@, test_error_body(*self)),
            self is Cancelled ==> contains_seq(r@, "Cancelled"@),
            self is NoOutputFile ==> contains_seq(r@, "Output file does not exist"@),
    {
        proof {
            reveal_strlit("Cancelled");
            reveal_strlit("Output file does not exist");
            assert(esc_free("Cancelled"@));
            assert(esc_free("Output file does not exist"@));
        }
        let heading = self.heading(test_name);
        let mut result = paint_bold(heading.as_str());
        proof {
            if esc_free(test_error_heading(*self, test_name@)) {
                lemma_contains_self(heading@);
            }
        }
        let ghost painted_heading = result@;
        let body: String = match self {
            TestError::Incorrect { error } => {
                proof {
                    lemma_contains_self(error@);
                }
                error.clone()
            },
            TestError::ProgramError { error } => paint_red(error.to_string().as_str()),
            TestError::CheckerError { error } => paint_blue(error.to_string().as_str()),
            TestError::NoOutputFile => paint_red("Output file does not exist"),
            TestError::Cancelled => paint_yellow("Cancelled"),
        };
        proof {
            if esc_free(test_error_heading(*self, test_name@)) {
                lemma_contains_left(painted_heading, body@, test_error_heading(*self, test_name@));
            }
            if esc_free(test_error_body(*self)) {
                lemma_contains_right(painted_heading, body@, test_error_body(*self));
            }
        }
        result.append(body.as_str());
        result
    }
}

} // verus!
