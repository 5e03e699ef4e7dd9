use vstd::prelude::*;
use crate::strutil::{contains_seq, contains_sub};
use crate::Millis;

verus! {

/// The command line, as plain values.  The caller's argument parser
/// fills this in; every path is carried as text.
#[derive(Debug)]
pub struct Args {
    /// Input directory.
    pub input_dir: String,
    /// Input file extension.
    pub in_ext: String,
    /// Output directory.
    pub out: String,
    /// Output file extension.
    pub out_ext: String,
    /// The input and output directory at once, when given.
    pub io: Option<String>,
    /// A checker program's source or executable, when given.
    pub checker: Option<String>,
    /// Seconds after which a test times out.
    pub timeout: u64,
    /// Seconds after which compilation times out.
    pub compile_timeout: u64,
    /// The compile command, with `<IN>` and `<OUT>` placeholders.
    pub compile_command: String,
    /// Use the sandboxed executor.
    pub sio2jail: bool,
    /// A memory limit in kibibytes; implies the sandboxed executor.
    pub memory_limit: Option<u64>,
    /// Generate output files instead of comparing.
    pub generate: bool,
    /// The source code or executable under test.
    pub filename: String,
}

/// Where the test inputs come from.
#[derive(Debug)]
pub enum InputConfig {
    Directory { directory: String, ext: String },
}

/// Which executor runs the tests.
#[derive(Debug)]
pub enum ExecuteMode {
    Simple,
    Sio2jail { memory_limit: u64 },
}

/// What is done with each test.
#[derive(Debug)]
pub enum ActionType {
    Generate { output_directory: String, output_ext: String },
    SimpleCompare { output_directory: String, output_ext: String },
    Checker { path: String },
}

/// The validated configuration a run works from.
#[derive(Debug)]
pub struct ParsedConfig {
    pub source_path: String,
    pub compile_command: String,
    pub compile_timeout_ms: Millis,
    pub execute_timeout_ms: Millis,
    pub input: InputConfig,
    pub execute_mode: ExecuteMode,
    pub action_type: ActionType,
}

/// When the validation accepts: the subject file exists, the input
/// directory (or the shared io directory) exists, the compile command
/// holds both placeholders, and the chosen action's own requirement on
/// the output side holds.
pub open spec fn from_args_accepts(
    args: Args,
    filename_is_file: bool,
    io_is_dir: bool,
    in_is_dir: bool,
    out_exists: bool,
    out_is_dir: bool,
    checker_is_file: bool,
) -> bool {
    filename_is_file && (match args.io {
        Some(_) => io_is_dir,
        None => in_is_dir,
    }) && contains_seq(args.compile_command@, "<IN>"@) && contains_seq(
        args.compile_command@,
        "<OUT>"@,
    ) && (match (args.generate, args.checker) {
        (true, Some(_)) => false,
        (true, None) => !(out_exists && !out_is_dir),
        (false, None) => out_is_dir,
        (false, Some(_)) => checker_is_file,
    })
}

/// The complaint for a compile command missing its placeholders.
pub open spec fn compile_command_complaint(has_in: bool, has_out: bool) -> Seq<char> {
    "The compile command is invalid:\n"@ + (if !has_in && !has_out {
        "The <IN> and <OUT> arguments are missing\n"@
    } else if !has_in {
        "The <IN> argument is missing\n"@
    } else {
        "The <OUT> argument is missing\n"@
    }) + "Read \"toster -h\" for more info"@
}

/// Accepts a compile command exactly when it holds both the `<IN>` and
/// the `<OUT>` placeholder; otherwise the message names what is
/// missing.
pub fn verify_compile_command(command: &str) -> (r: Result<(), String>)
    ensures
        r is Ok <==> contains_seq(command@, "<IN>"@) && contains_seq(command@, "<OUT>"@),
        r matches Err(e) ==> e@ == compile_command_complaint(
            contains_seq(command@, "<IN>"@),
            contains_seq(command@, "<OUT>"@),
        ),
{
    let has_in = contains_sub(command, "<IN>");
    let has_out = contains_sub(command, "<OUT>");
    if has_in && has_out {
        return Ok(());
    }
    let mut message = "The compile command is invalid:\n".to_owned();
    if !has_in && !has_out {
        message.append("The <IN> and <OUT> arguments are missing\n");
    } else if !has_in {
        message.append("The <IN> argument is missing\n");
    } else {
        message.append("The <OUT> argument is missing\n");
    }
    message.append("Read \"toster -h\" for more info");
    Err(message)
}

/// Whole seconds as milliseconds, saturating instead of overflowing.
pub fn seconds_to_millis(seconds: u64) -> (r: Millis)
    ensures
        seconds <= u64::MAX / 1000 ==> r == seconds * 1000,
        seconds > u64::MAX / 1000 ==> r == u64::MAX,
{
    if seconds <= u64::MAX / 1000 {
        proof {
            vstd::arithmetic::div_mod::lemma_fundamental_div_mod(u64::MAX as int, 1000);
        }
        seconds * 1000
    } else {
        u64::MAX
    }
}

/// The memory limit the sandbox defaults to when only the flag is
/// given, in kibibytes.
pub const DEFAULT_MEMORY_LIMIT_KIB: u64 = 1232896;

impl ParsedConfig {
    /// Validates the command line against what the caller found on
    /// disk, handed in as plain facts: whether the subject file exists,
    /// whether each directory involved exists, and whether the checker
    /// file does.  Exactly the first failing check is reported.
    pub fn from_args(
        args: Args,
        filename_is_file: bool,
        io_is_dir: bool,
        in_is_dir: bool,
        out_exists: bool,
        out_is_dir: bool,
        checker_is_file: bool,
    ) -> (r: Result<ParsedConfig, String>)
        ensures
            !filename_is_file ==> (r matches Err(e) && e@ == "The provided file does not exist"@),
            filename_is_file && args.io is Some && !io_is_dir ==> (r matches Err(e) && e@
                == "The input/output directory does not exist"@),
            filename_is_file && args.io is None && !in_is_dir ==> (r matches Err(e) && e@
                == "The input directory does not exist"@),
            r matches Ok(config) ==> filename_is_file && config.execute_timeout_ms == (
            if args.timeout <= u64::MAX / 1000 {
                args.timeout * 1000
            } else {
                u64::MAX as int
            }) && config.source_path@ == args.filename@ && config.compile_command@
                == args.compile_command@,
            r matches Ok(config) ==> (config.action_type is Generate <==> args.generate),
            r matches Ok(config) ==> ((config.execute_mode is Sio2jail) <==> (
            args.memory_limit is Some || args.sio2jail)),
            r is Ok <==> from_args_accepts(
                args,
                filename_is_file,
                io_is_dir,
                in_is_dir,
                out_exists,
                out_is_dir,
                checker_is_file,
            ),
    {
        if !filename_is_file {
            return Err("The provided file does not exist".to_owned());
        }
        let (input_directory, output_directory) = match args.io {
            Some(io) => {
                if !io_is_dir {
                    return Err("The input/output directory does not exist".to_owned());
                }
                (io.clone(), io)
            },
            None => {
                if !in_is_dir {
                    return Err("The input directory does not exist".to_owned());
                }
                (args.input_dir, args.out)
            },
        };
        if let Err(message) = verify_compile_command(args.compile_command.as_str()) {
            return Err(message);
        }
        let action_type: ActionType = match (args.generate, args.checker) {
            (true, Some(_)) => {
                return Err(
                    "You can't have the --generate and --checker flags on at the same time".to_owned(),
                );
            },
            (true, None) => {
                if out_exists && !out_is_dir {
                    return Err("Output path is not a directory".to_owned());
                }
                ActionType::Generate { output_directory, output_ext: args.out_ext }
            },
            (false, None) => {
                if !out_is_dir {
                    return Err("The output directory does not exist".to_owned());
                }
                ActionType::SimpleCompare { output_directory, output_ext: args.out_ext }
            },
            (false, Some(checker_path)) => {
                if !checker_is_file {
                    return Err("The provided checker file does not exist".to_owned());
                }
                ActionType::Checker { path: checker_path }
            },
        };
        let execute_mode = match args.memory_limit {
            Some(memory_limit) => ExecuteMode::Sio2jail { memory_limit },
            None => {
                if args.sio2jail {
                    ExecuteMode::Sio2jail { memory_limit: DEFAULT_MEMORY_LIMIT_KIB }
                } else {
                    ExecuteMode::Simple
                }
            },
        };
        Ok(
            ParsedConfig {
                source_path: args.filename,
                compile_timeout_ms: seconds_to_millis(args.compile_timeout),
                execute_timeout_ms: seconds_to_millis(args.timeout),
                compile_command: args.compile_command,
                input: InputConfig::Directory { directory: input_directory, ext: args.in_ext },
                execute_mode,
                action_type,
            },
        )
    }

    /// Whether this run generates output files instead of judging.
    pub fn generate_mode(&self) -> (r: bool)
        ensures
            r == self.action_type is Generate,
    {
        match self.action_type {
            ActionType::Generate { .. } => true,
            _ => false,
        }
    }
}

} // verus!
