use vstd::prelude::*;
use crate::executor::SimpleExecutor;
use crate::strutil::{contains_seq, esc_free, lemma_contains_self};
use crate::style::paint_red;
use crate::test_errors::{ExecutionError, TestError};
use crate::testing_utils::{trim_chars, trim_seq};
use crate::Millis;

verus! {

/// Judges a test by a user-supplied checker program instead of an
/// expected-output file.  The checker reads the test's input and the
/// subject's output and answers with a outcome line.
pub struct Checker {
    pub executor: SimpleExecutor,
}

/// The message shown for an output the checker rejected: the checker's
/// own explanation follows when it gave one.
pub open spec fn incorrect_text(output: Seq<char>) -> Seq<char> {
    let detail = if output.len() >= 2 {
        trim_seq(output.skip(2))
    } else {
        Seq::<char>::empty()
    };
    if detail.len() == 0 {
        "Incorrect output"@
    } else {
        "Incorrect output: "@ + detail
    }
}

impl Checker {
    /// A checker run through the direct executor, under the shared
    /// per-test timeout.
    pub fn new(checker_executable: String, timeout_ms: Millis) -> (r: Checker)
        ensures
            r.executor.timeout_ms == timeout_ms,
            r.executor.executable_path@ == checker_executable@,
    {
        Checker {
            executor: SimpleExecutor { executable_path: checker_executable, timeout_ms },
        }
    }

    /// Reads the checker's answer: a first character `C` accepts, `N`
    /// rejects with an optional explanation, anything else is a
    /// protocol breach reported against the checker.
    pub fn parse_checker_output(output: &str) -> (r: Result<(), TestError>)
        ensures
            output@.len() == 0 ==> (r matches Err(
                TestError::CheckerError { error: ExecutionError::IncorrectCheckerFormat(s) },
            ) && s@ == "the checker returned an empty file"@),
            output@.len() > 0 && output@[0] == 'C' ==> r is Ok,
            output@.len() > 0 && output@[0] == 'N' ==> (r matches Err(
                TestError::Incorrect { error },
            ) && (esc_free(incorrect_text(output@)) ==> contains_seq(
                error@,
                incorrect_text(output@),
            ))),
            output@.len() > 0 && output@[0] != 'C' && output@[0] != 'N' ==> (r matches Err(
                TestError::CheckerError { error: ExecutionError::IncorrectCheckerFormat(s) },
            ) && s@ == "the first character of the checker's output wasn't C or I"@),
    {
        let len = output.unicode_len();
        if len == 0 {
            return Err(
                TestError::CheckerError {
                    error: ExecutionError::IncorrectCheckerFormat(
                        "the checker returned an empty file".to_owned(),
                    ),
                },
            );
        }
        let first = output.get_char(0);
        if first == 'C' {
            Ok(())
        } else if first == 'N' {
            let detail: &str = if len >= 2 {
                trim_chars(output.substring_char(2, len))
            } else {
                ""
            };
            proof {
                reveal_strlit("");
                if len < 2 {
                    assert(detail@ =~= Seq::<char>::empty());
                } else {
                    assert(output@.subrange(2, len as int) =~= output@.skip(2));
                }
            }
            let message: String = if detail.is_empty() {
                "Incorrect output".to_owned()
            } else {
                let mut m = "Incorrect output: ".to_owned();
                m.append(detail);
                m
            };
            proof {
                lemma_contains_self(message@);
            }
            Err(TestError::Incorrect { error: paint_red(message.as_str()) })
        } else {
            Err(
                TestError::CheckerError {
                    error: ExecutionError::IncorrectCheckerFormat(
                        "the first character of the checker's output wasn't C or I".to_owned(),
                    ),
                },
            )
        }
    }
}

} // verus!
