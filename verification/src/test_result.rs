use vstd::prelude::*;
use crate::strutil::{contains_seq, esc_free, lemma_contains_left, lemma_contains_right,
    lemma_contains_self};
use crate::style::{paint_blue, paint_bold, paint_red};
use crate::test_errors::{checker_heading, error_text, test_heading, ExecutionError};

verus! {

/// The outcome reached for one test.
pub enum TestResult {
    Correct { test_name: String },
    Incorrect { test_name: String, error: String },
    ProgramError { test_name: String, error: ExecutionError },
    CheckerError { test_name: String, error: ExecutionError },
    NoOutputFile { test_name: String },
}

/// The name of the test a result belongs to.
pub open spec fn result_test_name(r: TestResult) -> Seq<char> {
    match r {
        TestResult::Correct { test_name } => test_name@,
        TestResult::Incorrect { test_name, .. } => test_name@,
        TestResult::ProgramError { test_name, .. } => test_name@,
        TestResult::CheckerError { test_name, .. } => test_name@,
        TestResult::NoOutputFile { test_name } => test_name@,
    }
}

/// The body of a result's error listing, before styling; empty for a
/// correct result.
pub open spec fn result_body(r: TestResult) -> Seq<char> {
    match r {
        TestResult::Correct { .. } => Seq::<char>::empty(),
        TestResult::Incorrect { error, .. } => error@,
        TestResult::ProgramError { error, .. } => error_text(error),
        TestResult::CheckerError { error, .. } => error_text(error),
        TestResult::NoOutputFile { .. } => "Output file does not exist"@,
    }
}

impl TestResult {
    /// Writes the result's error listing: nothing for a correct result,
    /// otherwise a styled heading followed by the error's body.
    pub fn to_string(&self) -> (r: String)
        ensures
            self matches TestResult::Correct { .. } ==> r@ == Seq::<char>::empty(),
            !(self matches TestResult::Correct { .. }) && esc_free(result_body(*self))
                ==> contains_seq(r@, result_body(*self)),
            self matches TestResult::NoOutputFile { .. } ==> contains_seq(
                r@,
                "Output file does not exist"@,
            ),
    {
        proof {
            reveal_strlit("Output file does not exist");
            assert(esc_free("Output file does not exist"@));
        }
        match self {
            TestResult::Correct { .. } => String::new(),
            TestResult::Incorrect { test_name, error } => {
                let mut result = paint_bold(Self::heading(test_name).as_str());
                proof {
                    lemma_contains_self(error@);
                    lemma_contains_right(result@, error@, error@);
                }
                result.append(error.as_str());
                result
            },
            TestResult::ProgramError { test_name, error } => {
                let mut result = paint_bold(Self::heading(test_name).as_str());
                let body = paint_red(error.to_string().as_str());
                proof {
                    if esc_free(result_body(*self)) {
                        lemma_contains_right(result@, body@, result_body(*self));
                    }
                }
                result.append(body.as_str());
                result
            },
            TestResult::CheckerError { test_name, error } => {
                let mut h = "Test ".to_owned();
                h.append(test_name.as_str());
                h.append(" encountered a checker error:\n");
                let mut result = paint_bold(h.as_str());
                let body = paint_blue(error.to_string().as_str());
                proof {
                    if esc_free(result_body(*self)) {
                        lemma_contains_right(result@, body@, result_body(*self));
                    }
                }
                result.append(body.as_str());
                result
            },
            TestResult::NoOutputFile { test_name } => {
                let mut result = paint_bold(Self::heading(test_name).as_str());
                let body = paint_red("Output file does not exist");
                proof {
                    if esc_free(result_body(*self)) {
                        lemma_contains_right(result@, body@, result_body(*self));
                    }
                }
                result.append(body.as_str());
                result
            },
        }
    }

    fn heading(test_name: &String) -> (r: String)
        ensures
            r@ == test_heading(test_name@),
    {
        let mut h = "Test ".to_owned();
        h.append(test_name.as_str());
        h.append(":\n");
        h
    }

    /// The name of the test this result belongs to.
    pub fn test_name(&self) -> (r: String)
        ensures
            r@ == result_test_name(*self),
    {
        match self {
            TestResult::Correct { test_name } => test_name.clone(),
            TestResult::Incorrect { test_name, .. } => test_name.clone(),
            TestResult::ProgramError { test_name, .. } => test_name.clone(),
            TestResult::CheckerError { test_name, .. } => test_name.clone(),
            TestResult::NoOutputFile { test_name } => test_name.clone(),
        }
    }

    /// Whether the test passed.
    pub fn is_correct(&self) -> (r: bool)
        ensures
            r == self matches TestResult::Correct { .. },
    {
        match self {
            TestResult::Correct { .. } => true,
            _ => false,
        }
    }
}

} // verus!
