use toster::args::{verify_compile_command, ParsedConfig, Args, ActionType, ExecuteMode};
use toster::checker::Checker;
use toster::owned_child::ExitStatus;
use toster::sio2jail::interpret_sio2jail_run;
use toster::strutil::{contains_sub, i64_to_string, parse_u64, second_line, split_extension,
    split_ws, u64_to_string};
use toster::test_errors::{ExecutionError, TestError};
use toster::testing_utils::{outputs_match, split_trim_end, trim_chars};

fn args_template() -> Args {
    Args {
        input_dir: "in".to_string(),
        in_ext: ".in".to_string(),
        out: "out".to_string(),
        out_ext: ".out".to_string(),
        io: None,
        checker: None,
        timeout: 5,
        compile_timeout: 10,
        compile_command: "g++ -std=c++20 -O3 -static <IN> -o <OUT>".to_string(),
        sio2jail: false,
        memory_limit: None,
        generate: false,
        filename: "solution.cpp".to_string(),
    }
}

#[test]
fn numbers_to_text() {
    assert_eq!(u64_to_string(0), "0");
    assert_eq!(u64_to_string(7), "7");
    assert_eq!(u64_to_string(12345), "12345");
    assert_eq!(u64_to_string(u64::MAX), "18446744073709551615");
    assert_eq!(i64_to_string(-7), "-7");
    assert_eq!(i64_to_string(42), "42");
    assert_eq!(i64_to_string(i64::MIN), "-9223372036854775808");
}

#[test]
fn text_to_numbers() {
    assert_eq!(parse_u64("0"), Some(0));
    assert_eq!(parse_u64("00123"), Some(123));
    assert_eq!(parse_u64("18446744073709551615"), Some(u64::MAX));
    assert_eq!(parse_u64("18446744073709551616"), None);
    assert_eq!(parse_u64(""), None);
    assert_eq!(parse_u64("12a"), None);
    assert_eq!(parse_u64("-3"), None);
}

#[test]
fn whitespace_tokens() {
    assert_eq!(split_ws("OK 0 231 0 4576 0"), vec!["OK", "0", "231", "0", "4576", "0"]);
    assert_eq!(split_ws("  a\t\tb \n c  "), vec!["a", "b", "c"]);
    assert_eq!(split_ws(""), Vec::<String>::new());
    assert_eq!(split_ws("   \n "), Vec::<String>::new());
}

#[test]
fn lines_and_trim() {
    assert_eq!(second_line("a\nb\nc"), Some("b".to_string()));
    assert_eq!(second_line("only one line"), None);
    assert_eq!(second_line("first\n"), Some("".to_string()));
    assert_eq!(trim_chars("  padded \t "), "padded");
    assert_eq!(trim_chars("\n\n"), "");
    assert_eq!(trim_chars("solid"), "solid");
    // The whole Unicode White_Space set counts as whitespace.
    assert_eq!(trim_chars("\u{a0}x\u{3000}"), "x");
    assert_eq!(split_ws("a\u{2009}b"), vec!["a", "b"]);
}

#[test]
fn substring_search() {
    assert!(contains_sub("g++ <IN> -o <OUT>", "<IN>"));
    assert!(!contains_sub("g++ <IN>", "<OUT>"));
    assert!(contains_sub("anything", ""));
    assert!(!contains_sub("", "x"));
}

#[test]
fn extension_split() {
    assert_eq!(split_extension("abc.in"), Some(("abc".to_string(), "in".to_string())));
    assert_eq!(split_extension("a.b.cpp"), Some(("a.b".to_string(), "cpp".to_string())));
    assert_eq!(split_extension("noext"), None);
    // A leading dot marks a hidden file, not an extension.
    assert_eq!(split_extension(".bashrc"), None);
    // A dot inside a directory name is no extension of the file.
    assert_eq!(split_extension("dir.v2/prog"), None);
    assert_eq!(split_extension("src/main.cpp"), Some(("src/main".to_string(), "cpp".to_string())));
}

#[test]
fn test_names_from_files() {
    assert_eq!(toster::prepare_input::test_name_for("abc.in", ".in"), Some("abc".to_string()));
    assert_eq!(toster::prepare_input::test_name_for("abc.out", ".in"), None);
    assert_eq!(toster::prepare_input::test_name_for("noext", ".in"), None);
    assert_eq!(toster::prepare_input::test_name_for(".in", ".in"), None);
}

#[test]
fn output_lines_shape() {
    assert_eq!(split_trim_end("a \nb\n\n  \n"), vec!["a", "b"]);
    assert_eq!(split_trim_end(""), Vec::<&str>::new());
    assert_eq!(split_trim_end("x"), vec!["x"]);
    assert_eq!(split_trim_end("x\t\ny  "), vec!["x", "y"]);
}

#[test]
fn output_comparison() {
    assert!(outputs_match("1 2 3\n", "1 2 3"));
    assert!(outputs_match("a \nb\n\n\n", "a\nb"));
    assert!(!outputs_match("a\nb", "a\nc"));
    assert!(!outputs_match("a", "a\nb"));
    assert!(!outputs_match("a b", "a  b"));
}

#[test]
fn compile_command_validation() {
    assert!(verify_compile_command("g++ <IN> -o <OUT>").is_ok());
    let missing_out = verify_compile_command("g++ <IN>").unwrap_err();
    assert!(missing_out.contains("The <OUT> argument is missing"));
    let missing_in = verify_compile_command("g++ -o <OUT>").unwrap_err();
    assert!(missing_in.contains("The <IN> argument is missing"));
    let missing_both = verify_compile_command("g++").unwrap_err();
    assert!(missing_both.contains("The <IN> and <OUT> arguments are missing"));
}

#[test]
fn config_validation() {
    let args = args_template();
    let config = ParsedConfig::from_args(args, true, true, true, true, true, true).unwrap();
    assert_eq!(config.execute_timeout_ms, 5000);
    assert_eq!(config.compile_timeout_ms, 10000);
    assert!(matches!(config.execute_mode, ExecuteMode::Simple));
    assert!(matches!(config.action_type, ActionType::SimpleCompare { .. }));
    assert!(!config.generate_mode());

    let missing = ParsedConfig::from_args(args_template(), false, true, true, true, true, true);
    assert_eq!(missing.unwrap_err(), "The provided file does not exist");

    let mut gen_args = args_template();
    gen_args.generate = true;
    let config = ParsedConfig::from_args(gen_args, true, true, true, true, true, true).unwrap();
    assert!(config.generate_mode());

    let mut clash = args_template();
    clash.generate = true;
    clash.checker = Some("checker.cpp".to_string());
    let err = ParsedConfig::from_args(clash, true, true, true, true, true, true).unwrap_err();
    assert_eq!(err, "You can't have the --generate and --checker flags on at the same time");

    let mut limited = args_template();
    limited.memory_limit = Some(262144);
    let config = ParsedConfig::from_args(limited, true, true, true, true, true, true).unwrap();
    assert!(matches!(config.execute_mode, ExecuteMode::Sio2jail { memory_limit: 262144 }));
}

#[test]
fn checker_outcomes() {
    assert!(Checker::parse_checker_output("C").is_ok());
    assert!(Checker::parse_checker_output("Correct!").is_ok());

    let empty = Checker::parse_checker_output("").unwrap_err();
    match empty {
        TestError::CheckerError { error: ExecutionError::IncorrectCheckerFormat(s) } => {
            assert_eq!(s, "the checker returned an empty file");
        }
        _ => panic!("empty checker output must be a format error"),
    }

    let rejected = Checker::parse_checker_output("N wrong sums  ").unwrap_err();
    match rejected {
        TestError::Incorrect { error } => {
            assert!(error.contains("Incorrect output: wrong sums"));
        }
        _ => panic!("a checker N outcome must reject the output"),
    }

    let bare = Checker::parse_checker_output("N").unwrap_err();
    match bare {
        TestError::Incorrect { error } => {
            assert!(error.contains("Incorrect output"));
            assert!(!error.contains("Incorrect output:"));
        }
        _ => panic!("a bare N outcome must reject the output"),
    }

    let strange = Checker::parse_checker_output("?").unwrap_err();
    match strange {
        TestError::CheckerError { error: ExecutionError::IncorrectCheckerFormat(s) } => {
            assert_eq!(s, "the first character of the checker's output wasn't C or I");
        }
        _ => panic!("an unknown outcome must be a format error"),
    }
}

fn ok_status() -> ExitStatus {
    ExitStatus::ExitCode(0)
}

#[test]
fn sandbox_report_ok() {
    let (metrics, result) = interpret_sio2jail_run(&ok_status(), "", "OK 0 231 0 4576 0", 262144);
    assert_eq!(metrics.time, Some(231));
    assert_eq!(metrics.memory_kibibytes, Some(4576));
    assert!(result.is_ok());
}

#[test]
fn sandbox_report_runtime_errors() {
    for status in ["RE", "RV"] {
        let report = format!("{status} 11 231 0 4576 0\nprocess exited due to signal 11");
        let (metrics, result) = interpret_sio2jail_run(&ok_status(), "", &report, 262144);
        assert_eq!(metrics.time, Some(231));
        assert_eq!(metrics.memory_kibibytes, Some(4576));
        match result.unwrap_err() {
            ExecutionError::RuntimeError(detail) => {
                assert_eq!(detail, "- process exited due to signal 11");
            }
            _ => panic!("an {status} report must be a runtime error"),
        }
    }
}

#[test]
fn sandbox_report_limits() {
    let (metrics, result) = interpret_sio2jail_run(&ok_status(), "", "TLE 0 5000 0 1000 0", 262144);
    assert_eq!(metrics.time, Some(5000));
    assert!(matches!(result.unwrap_err(), ExecutionError::TimedOut));

    let (metrics, result) = interpret_sio2jail_run(&ok_status(), "", "MLE 0 100 0 262200 0", 262144);
    assert_eq!(metrics.memory_kibibytes, Some(262200));
    assert!(matches!(result.unwrap_err(), ExecutionError::MemoryLimitExceeded));

    let (_, result) = interpret_sio2jail_run(&ok_status(), "", "OLE 0 100 0 10 0", 262144);
    match result.unwrap_err() {
        ExecutionError::RuntimeError(detail) => assert_eq!(detail, "- output limit exceeded"),
        _ => panic!("an OLE report must be a runtime error"),
    }
}

#[test]
fn sandbox_report_malformed() {
    let (metrics, result) = interpret_sio2jail_run(&ok_status(), "", "OK 0 231", 262144);
    assert!(metrics.time.is_none() && metrics.memory_kibibytes.is_none());
    match result.unwrap_err() {
        ExecutionError::Sio2jailError(s) => {
            assert_eq!(s, "The sio2jail output is too short: OK 0 231");
        }
        _ => panic!("a short report must be a sandbox error"),
    }

    let (_, result) = interpret_sio2jail_run(&ok_status(), "", "OK 0 abc 0 4576 0", 262144);
    assert!(matches!(result.unwrap_err(), ExecutionError::Sio2jailError(_)));

    let (_, result) = interpret_sio2jail_run(&ok_status(), "", "WAT 0 231 0 4576 0", 262144);
    match result.unwrap_err() {
        ExecutionError::Sio2jailError(s) => {
            assert_eq!(s, "Sio2jail returned an invalid status in the output: WAT");
        }
        _ => panic!("an unknown status must be a sandbox error"),
    }
}

#[test]
fn sandbox_bad_alloc_is_memory_limit() {
    let stderr =
        "terminate called after throwing an instance of 'std::bad_alloc'\n  what():  std::bad_alloc\n";
    let (metrics, result) = interpret_sio2jail_run(&ok_status(), stderr, "", 262144);
    assert_eq!(metrics.time, None);
    assert_eq!(metrics.memory_kibibytes, Some(262144));
    assert!(matches!(result.unwrap_err(), ExecutionError::MemoryLimitExceeded));
}

#[test]
fn sandbox_stderr_is_sandbox_error() {
    let (metrics, result) =
        interpret_sio2jail_run(&ok_status(), "cannot attach instrumentation", "", 262144);
    assert!(metrics.time.is_none());
    match result.unwrap_err() {
        ExecutionError::Sio2jailError(s) => assert_eq!(s, "cannot attach instrumentation"),
        _ => panic!("supervisor diagnostics must surface as a sandbox error"),
    }
}

#[test]
fn sandbox_supervisor_failures() {
    let (_, result) =
        interpret_sio2jail_run(&ExitStatus::ExitCode(3), "", "OK 0 231 0 4576 0", 262144);
    match result.unwrap_err() {
        ExecutionError::Sio2jailError(s) => {
            assert_eq!(s, "Sio2jail returned an invalid status code: 3");
        }
        _ => panic!("a failing supervisor must be a sandbox error"),
    }

    let signalled = ExitStatus::Signalled("SIGSEGV".to_string());
    let (_, result) = interpret_sio2jail_run(&signalled, "", "OK 0 231 0 4576 0", 262144);
    match result.unwrap_err() {
        ExecutionError::RuntimeError(s) => {
            assert!(s.contains("SIGSEGV"));
        }
        _ => panic!("a signalled supervisor must be a runtime error"),
    }
}
