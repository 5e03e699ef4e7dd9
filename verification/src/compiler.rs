use vstd::prelude::*;
use crate::formatted_error::FormattedError;
use crate::strutil::{contains_seq, esc_free, ext_dot_at, lemma_contains_left,
    lemma_contains_right, lemma_contains_self, lemma_ext_dot_unique, split_extension};
use crate::style::paint_red;
use crate::Millis;

verus! {

/// Why no executable could be prepared from the given file.
pub enum CompilerError {
    /// The file was taken for an executable but could not be started;
    /// the field carries the operating system's complaint.
    InvalidExecutable(String),
    /// Compilation ran and failed; the field carries the compiler's
    /// output.
    CompilationError(String),
}

/// The heading placed over each kind of failure.
pub open spec fn compiler_error_heading(e: CompilerError, is_checker: bool) -> Seq<char> {
    let subject = if is_checker {
        match e {
            CompilerError::InvalidExecutable(_) => "The provided checker can't be executed"@,
            CompilerError::CompilationError(_) => {
                "Checker compilation failed with the following errors:"@
            },
        }
    } else {
        match e {
            CompilerError::InvalidExecutable(_) => "The provided program can't be executed"@,
            CompilerError::CompilationError(_) => {
                "Program compilation failed with the following errors:"@
            },
        }
    };
    subject
}

/// The detail below the heading: the system's or the compiler's words.
pub open spec fn compiler_error_detail(e: CompilerError) -> Seq<char> {
    match e {
        CompilerError::InvalidExecutable(detail) => detail@,
        CompilerError::CompilationError(detail) => detail@,
    }
}

impl CompilerError {
    /// Writes the failure for the terminal: a styled heading naming
    /// what failed — the program under test or the checker — over the
    /// verbatim detail.
    pub fn to_formatted(&self, is_checker: bool) -> (r: FormattedError)
        ensures
            esc_free(compiler_error_heading(*self, is_checker)) ==> contains_seq(
                r@,
                compiler_error_heading(*self, is_checker),
            ),
            contains_seq(r@, compiler_error_detail(*self)),
    {
        let heading: &str = match (self, is_checker) {
            (CompilerError::InvalidExecutable(_), true) => "The provided checker can't be executed",
            (CompilerError::InvalidExecutable(_), false) => "The provided program can't be executed",
            (CompilerError::CompilationError(_), true) => {
                "Checker compilation failed with the following errors:"
            },
            (CompilerError::CompilationError(_), false) => {
                "Program compilation failed with the following errors:"
            },
        };
        let mut message = paint_red(heading);
        let ghost painted = message@;
        message.append("\n");
        let ghost prefix = message@;
        let detail: &String = match self {
            CompilerError::InvalidExecutable(detail) => detail,
            CompilerError::CompilationError(detail) => detail,
        };
        proof {
            if esc_free(compiler_error_heading(*self, is_checker)) {
                lemma_contains_left(painted, "\n"@, compiler_error_heading(*self, is_checker));
                lemma_contains_left(prefix, detail@, compiler_error_heading(*self, is_checker));
            }
            lemma_contains_self(detail@);
            lemma_contains_right(prefix, detail@, detail@);
        }
        message.append(detail.as_str());
        FormattedError::preformatted(message)
    }
}

/// Turns source files into executables; the compiler runs at the
/// caller's edge, against the command this type validates and holds.
pub struct Compiler {
    /// The directory compiled executables are placed in.
    pub workdir: String,
    /// How long compilation may run, in milliseconds.
    pub compile_timeout_ms: Millis,
    /// The compile command, with `<IN>` and `<OUT>` placeholders.
    pub compile_command: String,
}

/// Relies on is_executable's is_executable: whether the file at `path`
/// carries execute permission for the current user right now.
#[verifier::external_body]
fn is_executable_path(path: &str) -> bool {
    is_executable::is_executable(std::path::Path::new(path))
}

/// The extensions treated as compilable source code.
pub open spec fn is_source_extension(ext: Seq<char>) -> bool {
    ext == "cpp"@ || ext == "cc"@ || ext == "cxx"@ || ext == "c"@
}

impl Compiler {
    /// Whether `path` needs compiling: a recognized extension on its
    /// final component says yes, another extension says no, and a file
    /// without one counts as source exactly when it is not executable.
    pub fn is_source_file(path: &str) -> (r: bool)
        ensures
            (exists|p: int|
                #[trigger] ext_dot_at(path@, p) && p > 0 && path@[p - 1] != '/'
                    && is_source_extension(path@.skip(p + 1))) ==> r,
            (exists|p: int|
                #[trigger] ext_dot_at(path@, p) && p > 0 && path@[p - 1] != '/'
                    && !is_source_extension(path@.skip(p + 1))) ==> !r,
    {
        match split_extension(path) {
            Some((_, ext)) => {
                let r = string_matches_source(&ext);
                proof {
                    let p1 = choose|p: int|
                        #[trigger] ext_dot_at(path@, p) && p > 0 && path@[p - 1] != '/' && ext@
                            == path@.skip(p + 1);
                    assert forall|p2: int|
                        #[trigger] ext_dot_at(path@, p2) && p2 > 0 && path@[p2 - 1]
                            != '/' implies path@.skip(p2 + 1) == ext@ by {
                        lemma_ext_dot_unique(path@, p1, p2);
                    }
                }
                r
            },
            None => !is_executable_path(path),
        }
    }
}

fn string_matches_source(ext: &String) -> (r: bool)
    ensures
        r == is_source_extension(ext@),
{
    let cpp: String = "cpp".to_owned();
    let cc: String = "cc".to_owned();
    let cxx: String = "cxx".to_owned();
    let c: String = "c".to_owned();
    *ext == cpp || *ext == cc || *ext == cxx || *ext == c
}

} // verus!
