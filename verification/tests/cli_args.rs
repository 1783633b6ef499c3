use compiler_builder::cli::expected_value_message;
use compiler_builder::cli::CliOutcome;
use compiler_builder::cli::CommandLine;
use compiler_builder::cli::ParsedArg;
use compiler_builder::decimal::parse_bool_or;
use compiler_builder::decimal::parse_u32_or;
use compiler_builder::llvm::LLVMReleaseType;
use compiler_builder::logging::format_log_line;
use compiler_builder::logging::stream_for;
use compiler_builder::logging::LoggingType;
use compiler_builder::logging::OutputIn;
use compiler_builder::targets::parse_llvm_triple;
use compiler_builder::targets::LLVMBackendHostTarget;
use compiler_builder::utils::get_compiler_dependencies_build_path;
use compiler_builder::utils::get_system_temp_dir;
use compiler_builder::utils::str_eq;

fn args(words: &[&str]) -> Vec<String> {
    words.iter().map(|w| w.to_string()).collect()
}

#[test]
fn parsed_arg_splits_on_equals() {
    let parsed = ParsedArg::new("--llvm-major=18");
    assert_eq!(parsed.key, "--llvm-major");
    assert_eq!(parsed.value, Some("18".to_string()));
}

#[test]
fn parsed_arg_splits_on_colon() {
    let parsed = ParsedArg::new("--llvm-pic:false");
    assert_eq!(parsed.key, "--llvm-pic");
    assert_eq!(parsed.value, Some("false".to_string()));
}

#[test]
fn parsed_arg_prefers_equals_over_colon() {
    let parsed = ParsedArg::new("a:b=c");
    assert_eq!(parsed.key, "a:b");
    assert_eq!(parsed.value, Some("c".to_string()));
}

#[test]
fn parsed_arg_whole_word() {
    let parsed = ParsedArg::new("-gcc");
    assert_eq!(parsed.key, "-gcc");
    assert_eq!(parsed.value, None);
}

#[test]
fn parse_sets_llvm_version_and_recomputes_url() {
    let (cl, outcome) = CommandLine::parse(args(&[
        "compiler-builder",
        "--llvm-major",
        "18",
        "--llvm-minor",
        "1",
        "--llvm-patch",
        "8",
    ]));
    assert_eq!(outcome, CliOutcome::Proceed);
    let llvm = cl.get_options().get_llvm_build();
    assert_eq!(llvm.major(), 18);
    assert_eq!(llvm.minor(), 1);
    assert_eq!(llvm.patch(), 8);
    assert!(llvm.url().contains("llvmorg-18.1.8"));
}

#[test]
fn parse_accepts_inline_values() {
    let (cl, outcome) = CommandLine::parse(args(&["prog", "--llvm-major=19", "--llvm-pic=false"]));
    assert_eq!(outcome, CliOutcome::Proceed);
    assert_eq!(cl.get_options().get_llvm_build().major(), 19);
    assert!(!cl.get_options().get_llvm_build().enable_pic());
}

#[test]
fn parse_bad_number_falls_back_to_default() {
    let (cl, outcome) = CommandLine::parse(args(&["prog", "--llvm-major", "teal"]));
    assert_eq!(outcome, CliOutcome::Proceed);
    assert_eq!(cl.get_options().get_llvm_build().major(), 17);
}

#[test]
fn parse_release_type_words() {
    let (cl, _) = CommandLine::parse(args(&["prog", "--llvm-release-type", "MinSizeRel"]));
    assert_eq!(*cl.get_options().get_llvm_build().release_type(), LLVMReleaseType::MinSizeRel);
    let (cl, _) = CommandLine::parse(args(&["prog", "--llvm-release-type", "weird"]));
    assert_eq!(*cl.get_options().get_llvm_build().release_type(), LLVMReleaseType::Release);
}

#[test]
fn parse_gcc_flags() {
    let (cl, outcome) = CommandLine::parse(args(&[
        "prog",
        "-gcc",
        "--gcc-major",
        "14",
        "--gcc-minor",
        "1",
        "--gcc-patch",
        "0",
        "--gcc-host-shared",
        "false",
        "--gcc-c-compiler-command",
        "clang",
    ]));
    assert_eq!(outcome, CliOutcome::Proceed);
    assert!(cl.get_options().get_build_gcc_backend());
    let gcc = cl.get_options().get_gcc_build();
    assert_eq!(gcc.major(), 14);
    assert_eq!(gcc.minor(), 1);
    assert!(!gcc.host_shared());
    assert_eq!(gcc.c_compiler_command(), "clang");
    assert!(gcc.url().contains("gcc-14.1.0.tar.gz"));
}

#[test]
fn parse_compiler_and_flag_strings() {
    let (cl, outcome) = CommandLine::parse(args(&[
        "prog",
        "--llvm-c-compiler",
        "clang",
        "--llvm-cpp-compiler",
        "clang++",
        "--llvm-c-flags",
        "-O2",
        "--llvm-cpp-flags",
        "-O3",
        "--llvm-use-linker",
        "lld",
    ]));
    assert_eq!(outcome, CliOutcome::Proceed);
    let llvm = cl.get_options().get_llvm_build();
    assert_eq!(llvm.c_compiler(), "clang");
    assert_eq!(llvm.cpp_compiler(), "clang++");
    assert_eq!(llvm.c_flags(), "-O2");
    assert_eq!(llvm.cpp_flags(), "-O3");
    assert_eq!(llvm.linker(), "lld");
}

#[test]
fn parse_debug_flags() {
    let (cl, outcome) = CommandLine::parse(args(&["prog", "--debug-llvm", "--debug-gcc"]));
    assert_eq!(outcome, CliOutcome::Proceed);
    assert!(cl.get_options().get_llvm_build().debug_commands());
    assert!(cl.get_options().get_gcc_build().debug_commands());
}

#[test]
fn parse_missing_value_stops_the_scan() {
    let (_, outcome) = CommandLine::parse(args(&["prog", "--llvm-major"]));
    assert_eq!(outcome, CliOutcome::MissingValue);
    assert_eq!(expected_value_message(), "Expected value after flag.");
}

#[test]
fn parse_help_and_version_and_unknown() {
    let (_, outcome) = CommandLine::parse(args(&["prog", "--help"]));
    assert_eq!(outcome, CliOutcome::Help);
    let (_, outcome) = CommandLine::parse(args(&["prog", "-v"]));
    assert_eq!(outcome, CliOutcome::Version);
    let (_, outcome) = CommandLine::parse(args(&["prog", "--frobnicate"]));
    assert_eq!(outcome, CliOutcome::Help);
}

#[test]
fn parse_empty_line_proceeds_with_defaults() {
    let (cl, outcome) = CommandLine::parse(args(&["prog"]));
    assert_eq!(outcome, CliOutcome::Proceed);
    assert_eq!(cl.get_options().get_llvm_build().major(), 17);
    assert!(cl.get_options().get_llvm_build().url().contains("llvmorg-17.0.6"));
}

#[test]
fn check_requirements_reports_missing_tools() {
    let (cl, _) = CommandLine::parse(args(&["prog"]));
    assert!(cl.check_requirements(true, true, true).is_ok());
    let msgs = cl.check_requirements(false, true, false).unwrap_err();
    assert_eq!(
        msgs,
        vec![
            "tar is not installed.\n".to_string(),
            "ninja is not installed.\n".to_string(),
            "Requirements aren't ok!\n\n".to_string(),
        ]
    );
}

#[test]
fn numeric_and_boolean_parsing() {
    assert_eq!(parse_u32_or("17", 0), 17);
    assert_eq!(parse_u32_or("0", 9), 0);
    assert_eq!(parse_u32_or("", 9), 9);
    assert_eq!(parse_u32_or("1x", 9), 9);
    assert_eq!(parse_u32_or("4294967295", 9), 4294967295);
    assert_eq!(parse_u32_or("4294967296", 9), 9);
    assert_eq!(parse_u32_or("99999999999999999999", 9), 9);
    assert!(parse_bool_or("true", false));
    assert!(!parse_bool_or("false", true));
    assert!(parse_bool_or("yes", true));
    assert!(!parse_bool_or("yes", false));
}

#[test]
fn numeric_parsing_accepts_one_leading_plus() {
    // One optional leading plus sign is accepted, exactly as the standard
    // unsigned parse treats flag values.
    assert_eq!(parse_u32_or("+18", 0), 18);
    assert_eq!("+18".parse::<u32>().unwrap(), 18);
    assert_eq!(parse_u32_or("+0", 9), 0);
    assert_eq!(parse_u32_or("+", 9), 9);
    assert!("+".parse::<u32>().is_err());
    assert_eq!(parse_u32_or("++1", 9), 9);
    assert!("++1".parse::<u32>().is_err());
    assert_eq!(parse_u32_or("-1", 9), 9);
    assert!("-1".parse::<u32>().is_err());
}

#[test]
fn parse_accepts_plus_signed_version_values() {
    let (cl, outcome) = CommandLine::parse(args(&["prog", "--llvm-major", "+18"]));
    assert_eq!(outcome, CliOutcome::Proceed);
    assert_eq!(cl.get_options().get_llvm_build().major(), 18);
}

#[test]
fn string_equality() {
    assert!(str_eq("", ""));
    assert!(str_eq("abc", "abc"));
    assert!(!str_eq("abc", "abd"));
    assert!(!str_eq("abc", "abcd"));
    assert!(str_eq("año", "año"));
}

#[test]
fn temp_dir_preference_order() {
    let dir = get_system_temp_dir(
        Some("/a".to_string()),
        Some("/b".to_string()),
        None,
        None,
        "/tmp".to_string(),
    );
    assert_eq!(dir, "/a");
    let dir = get_system_temp_dir(None, None, None, Some("/d".to_string()), "/tmp".to_string());
    assert_eq!(dir, "/d");
    let dir = get_system_temp_dir(None, None, None, None, "/tmp".to_string());
    assert_eq!(dir, "/tmp");
}

#[test]
fn dependencies_build_path_resolution() {
    let path = get_compiler_dependencies_build_path("unix", Some("/home/u".to_string())).unwrap();
    assert_eq!(path, "/home/u/.thrushlang/backends/llvm/build");
    let err = get_compiler_dependencies_build_path("unix", None).unwrap_err();
    assert_eq!(err, "Missing $HOME environment variable.\n");
    let err = get_compiler_dependencies_build_path("windows", None).unwrap_err();
    assert_eq!(err, "Missing $APPDATA environment variable.\n");
    let err = get_compiler_dependencies_build_path("wasm", Some("/h".to_string())).unwrap_err();
    assert_eq!(err, "Unsopported OS for build Thrush Programming Language backend build.");
}

#[test]
fn target_triples_round_trip() {
    let targets = [
        LLVMBackendHostTarget::WindowsGNU,
        LLVMBackendHostTarget::WindowsLIBCMT,
        LLVMBackendHostTarget::WindowsMSVC,
        LLVMBackendHostTarget::LinuxGNU,
        LLVMBackendHostTarget::LinuxMusl,
    ];
    for t in targets {
        assert_eq!(parse_llvm_triple(t.get_triple()), Some(t));
    }
    assert_eq!(parse_llvm_triple("powerpc-unknown-none"), None);
}

#[test]
fn target_predicates() {
    assert!(LLVMBackendHostTarget::LinuxGNU.is_linux_gnu());
    assert!(!LLVMBackendHostTarget::LinuxGNU.is_linux_musl());
    assert!(LLVMBackendHostTarget::LinuxMusl.is_linux_musl());
    assert!(LLVMBackendHostTarget::WindowsGNU.is_windows_gnu());
    assert!(LLVMBackendHostTarget::WindowsLIBCMT.is_windows_libcmt());
    assert!(LLVMBackendHostTarget::WindowsMSVC.is_windows_msvc());
}

#[test]
fn logging_classification_and_format() {
    assert!(LoggingType::Panic.is_panic());
    assert!(!LoggingType::Panic.is_err());
    assert!(LoggingType::Error.is_err());
    assert!(!LoggingType::Debug.is_err());
    assert_eq!(format_log_line(&LoggingType::Debug, "hello"), "DEBUG hello");
    assert_eq!(format_log_line(&LoggingType::Panic, "boom"), "PANIC boom");
    assert_eq!(stream_for(&LoggingType::Panic), OutputIn::Stderr);
    assert_eq!(stream_for(&LoggingType::Error), OutputIn::Stderr);
    assert_eq!(stream_for(&LoggingType::Debug), OutputIn::Stdout);
}
