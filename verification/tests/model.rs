use compiler_builder::builder::Backend;
use compiler_builder::builder::CompilerBuilderDependencies;
use compiler_builder::cmd::assess_exit_status;
use compiler_builder::cmd::command_failure_message;
use compiler_builder::cmd::join_path;
use compiler_builder::cmd::spawn_failure_message;
use compiler_builder::cmd::tar_extract_args;
use compiler_builder::cmd::tar_failure_message;
use compiler_builder::cmd::wait_failure_message;
use compiler_builder::cmd::write_failure_message;
use compiler_builder::decimal::u32_to_string;
use compiler_builder::fetch::assess_http_status;
use compiler_builder::gcc::build_gcc_url;
use compiler_builder::gcc::gcc_archive_name;
use compiler_builder::gcc::gcc_configure_args;
use compiler_builder::gcc::gcc_configure_env;
use compiler_builder::gcc::GCCBuild;
use compiler_builder::llvm::build_llvm_url;
use compiler_builder::llvm::compile_cmake_args;
use compiler_builder::llvm::llvm_archive_name;
use compiler_builder::llvm::ninja_build_args;
use compiler_builder::llvm::ninja_install_args;
use compiler_builder::llvm::version_string;
use compiler_builder::llvm::LLVMBuild;
use compiler_builder::llvm::LLVMReleaseType;
use compiler_builder::options::BuildOptions;
use compiler_builder::pipeline::PipelineState;
use compiler_builder::pipeline::Stage;
use compiler_builder::pipeline::StageAction;

#[test]
fn decimal_rendering() {
    assert_eq!(u32_to_string(0), "0");
    assert_eq!(u32_to_string(7), "7");
    assert_eq!(u32_to_string(17), "17");
    assert_eq!(u32_to_string(150), "150");
    assert_eq!(u32_to_string(4294967295), "4294967295");
}

#[test]
fn version_rendering() {
    assert_eq!(version_string(17, 0, 6), "17.0.6");
    assert_eq!(version_string(15, 2, 0), "15.2.0");
}

#[test]
fn llvm_url_and_archive_name_are_consistent() {
    // The URL names the release tag and ends with the archive file name,
    // both rendered from the same version triple.
    let url = build_llvm_url(17, 0, 6);
    assert!(url.contains("llvmorg-17.0.6"));
    assert!(url.ends_with("/llvm-project-17.0.6.src.tar.xz"));
    let mut spec = LLVMBuild::new();
    assert_eq!(llvm_archive_name(&spec), "llvm-project-17.0.6.src.tar.xz");
    spec.set_major(18);
    spec.set_minor(1);
    spec.set_patch(8);
    spec.setup_all();
    assert!(spec.url().contains("llvmorg-18.1.8"));
    assert!(spec.url().ends_with(&format!("/{}", llvm_archive_name(&spec))));
}

#[test]
fn llvm_default_url_matches_default_version() {
    let spec = LLVMBuild::new();
    assert_eq!(
        spec.url(),
        "https://github.com/llvm/llvm-project/releases/download/llvmorg-17.0.6/llvm-project-17.0.6.src.tar.xz"
    );
}

#[test]
fn gcc_url_and_archive_name_are_consistent() {
    let url = build_gcc_url(15, 2, 0);
    assert_eq!(
        url,
        "https://github.com/gcc-mirror/gcc/archive/refs/tags/releases/gcc-15.2.0.tar.gz"
    );
    let spec = GCCBuild::new();
    assert_eq!(spec.url(), url.as_str());
    assert_eq!(gcc_archive_name(&spec), "gcc-releases-gcc-15.2.0.tar.gz");
    assert_eq!(
        compiler_builder::gcc::get_descompressed_folder_directory(&spec),
        "gcc-releases-gcc-15.2.0"
    );
}

#[test]
fn llvm_source_dir_name_follows_convention() {
    let spec = LLVMBuild::new();
    assert_eq!(
        compiler_builder::llvm::get_descompressed_folder_directory(&spec),
        "llvm-project-17.0.6.src"
    );
}

#[test]
fn cmake_args_deterministic() {
    // The flag compiler is a pure function: two runs on an unmodified spec
    // yield identical argument lists.
    let mut spec = LLVMBuild::new();
    spec.set_linker("lld".to_string());
    spec.set_enable_pdb(true);
    let a = compile_cmake_args(&spec, "/tmp/src", "/opt/out");
    let b = compile_cmake_args(&spec, "/tmp/src", "/opt/out");
    assert_eq!(a, b);
}

#[test]
fn cmake_args_base_layout() {
    let spec = LLVMBuild::new();
    let args = compile_cmake_args(&spec, "/tmp/llvm-project-17.0.6.src", "/opt/out");
    assert_eq!(args[0], "-G");
    assert_eq!(args[1], "Ninja");
    assert_eq!(args[2], "-S");
    assert_eq!(args[3], "/tmp/llvm-project-17.0.6.src/llvm");
    assert_eq!(args[4], "-B");
    assert_eq!(args[5], "/tmp/llvm-project-17.0.6.src/llvm/build");
    assert_eq!(args[6], "-DCMAKE_BUILD_TYPE=Release");
    assert_eq!(args[7], "-DCMAKE_C_COMPILER=gcc");
    assert_eq!(args[8], "-DCMAKE_CXX_COMPILER=g++");
    assert_eq!(args[9], "-DCMAKE_C_FLAGS=");
    assert_eq!(args[10], "-DCMAKE_CXX_FLAGS=");
    assert_eq!(args[17], "-DCMAKE_INSTALL_PREFIX=/opt/out");
    // defaults: PIC is on, so no conditional argument is emitted at all
    assert_eq!(args.len(), 22);
}

#[test]
fn cmake_args_toggle_flips_exactly_one_argument() {
    // Flipping one toggle changes exactly its own argument and no other.
    let off = LLVMBuild::new();
    let mut on = LLVMBuild::new();
    on.set_enable_pdb(true);
    let args_off = compile_cmake_args(&off, "/s", "/i");
    let args_on = compile_cmake_args(&on, "/s", "/i");
    assert!(!args_off.contains(&"-DLLVM_ENABLE_PDB=ON".to_string()));
    assert!(args_on.contains(&"-DLLVM_ENABLE_PDB=ON".to_string()));
    let filtered: Vec<String> = args_on
        .iter()
        .filter(|a| a.as_str() != "-DLLVM_ENABLE_PDB=ON")
        .cloned()
        .collect();
    assert_eq!(filtered, args_off);
}

#[test]
fn cmake_args_pic_emits_only_when_disabled() {
    let mut spec = LLVMBuild::new();
    spec.set_enable_pic(false);
    let args = compile_cmake_args(&spec, "/s", "/i");
    assert!(args.contains(&"-DLLVM_ENABLE_PIC=OFF".to_string()));
    spec.set_enable_pic(true);
    let args = compile_cmake_args(&spec, "/s", "/i");
    assert!(!args.contains(&"-DLLVM_ENABLE_PIC=OFF".to_string()));
}

#[test]
fn cmake_args_linker_slot() {
    let mut spec = LLVMBuild::new();
    spec.set_linker("mold".to_string());
    let args = compile_cmake_args(&spec, "/s", "/i");
    assert!(args.contains(&"-DLLVM_USE_LINKER=mold".to_string()));
}

#[test]
fn release_type_representations() {
    assert_eq!(LLVMReleaseType::Debug.get_repr(), "Debug");
    assert_eq!(LLVMReleaseType::Release.get_repr(), "Release");
    assert_eq!(LLVMReleaseType::MinSizeRel.get_repr(), "MinSizeRel");
}

#[test]
fn gcc_configure_args_host_shared_toggle() {
    let mut spec = GCCBuild::new();
    let args = gcc_configure_args(&spec);
    assert_eq!(
        args,
        vec![
            "--enable-languages=jit".to_string(),
            "--disable-bootstrap".to_string(),
            "--enable-host-shared".to_string(),
        ]
    );
    spec.set_host_shared(false);
    let args = gcc_configure_args(&spec);
    assert_eq!(
        args,
        vec!["--enable-languages=jit".to_string(), "--disable-bootstrap".to_string()]
    );
}

#[test]
fn gcc_env_assignments_only_when_set() {
    let mut spec = GCCBuild::new();
    assert!(gcc_configure_env(&spec).is_empty());
    spec.set_c_compiler_command("clang".to_string());
    spec.set_cpp_compiler_flags("-O2".to_string());
    let env = gcc_configure_env(&spec);
    assert_eq!(
        env,
        vec![
            ("CC".to_string(), "clang".to_string()),
            ("CXXFLAGS".to_string(), "-O2".to_string()),
        ]
    );
}

#[test]
fn ninja_and_tar_commands() {
    assert_eq!(
        ninja_build_args("/tmp/src"),
        vec!["-C".to_string(), "/tmp/src/llvm/build".to_string()]
    );
    assert_eq!(
        ninja_install_args("/tmp/src"),
        vec!["-C".to_string(), "/tmp/src/llvm/build".to_string(), "install".to_string()]
    );
    assert_eq!(
        tar_extract_args("/tmp/a.tar.xz", "/tmp"),
        vec!["-xf".to_string(), "/tmp/a.tar.xz".to_string(), "-C".to_string(), "/tmp".to_string()]
    );
    assert_eq!(join_path("/tmp", "x"), "/tmp/x");
}

#[test]
fn failure_messages() {
    assert!(assess_exit_status(true, "unused".to_string()).is_ok());
    assert_eq!(
        assess_exit_status(false, command_failure_message("exit status: 2")).unwrap_err(),
        "Command failed with status: exit status: 2"
    );
    assert_eq!(spawn_failure_message("boom"), "Failed to spawn process: boom");
    assert_eq!(wait_failure_message("boom"), "Failed to wait on child: boom");
    assert_eq!(tar_failure_message("boom"), "Failed to execute tar: boom");
    assert_eq!(
        write_failure_message("\"/tmp/a\"", "full"),
        "Failed to write to file \"/tmp/a\": full"
    );
    assert_eq!(
        compiler_builder::llvm::decompress_failure_message(),
        "Failed to decompress LLVM archive"
    );
    assert_eq!(
        compiler_builder::gcc::decompress_failure_message(),
        "Failed to decompress GCC archive"
    );
}

#[test]
fn http_status_judgement() {
    // A non-success response is a terminal error naming the URL and code.
    let err = assess_http_status("https://example.org/a.tar.xz", 404).unwrap_err();
    assert_eq!(err, "Failed to download https://example.org/a.tar.xz: HTTP 404");
    assert!(err.contains("404"));
    assert!(err.contains("https://example.org/a.tar.xz"));
    assert!(assess_http_status("u", 200).is_ok());
    assert!(assess_http_status("u", 299).is_ok());
    assert!(assess_http_status("u", 300).is_err());
    assert!(assess_http_status("u", 199).is_err());
    assert!(assess_http_status("u", 500).is_err());
}

#[test]
fn pipeline_full_success_populates_build_dir() {
    let mut run = PipelineState::new();
    let mut actions = Vec::new();
    while let Some(action) = run.next_action() {
        actions.push(action);
        run.advance(true);
    }
    assert_eq!(
        actions,
        vec![
            StageAction::Download,
            StageAction::Extract,
            StageAction::PrepareBuildDir,
            StageAction::Configure,
            StageAction::Compile,
            StageAction::Install,
        ]
    );
    assert_eq!(run.stage, Stage::Installed);
    assert!(run.build_dir_prepared);
    assert!(run.is_terminal());
}

#[test]
fn pipeline_failure_cleans_up_artifacts() {
    // A failure during the configure stage leaves neither the archive nor
    // the extracted source tree behind.
    let mut run = PipelineState::new();
    run.advance(true); // downloaded
    run.advance(true); // extracted
    run.advance(true); // build dir prepared
    assert!(run.archive_present);
    assert!(run.source_present);
    assert_eq!(run.next_action(), Some(StageAction::Configure));
    run.advance(false); // configure failed
    assert_eq!(run.stage, Stage::Failed);
    assert!(!run.archive_present);
    assert!(!run.source_present);
    assert!(!run.build_dir_prepared);
    assert_eq!(run.next_action(), None);
    // failure is sticky
    run.advance(true);
    assert_eq!(run.stage, Stage::Failed);
}

#[test]
fn pipeline_failure_during_compile_and_install() {
    for failing_stage in [4usize, 5] {
        let mut run = PipelineState::new();
        for step in 0..failing_stage {
            let _ = step;
            run.advance(true);
        }
        run.advance(false);
        assert_eq!(run.stage, Stage::Failed);
        assert!(!run.archive_present);
        assert!(!run.source_present);
    }
}

#[test]
fn build_plan_primary_only_by_default() {
    // With only the primary backend requested, no step of the plan belongs
    // to the secondary one.
    let options = BuildOptions::new();
    let plan = CompilerBuilderDependencies::new(&options).build();
    assert_eq!(plan, vec![Backend::Llvm]);
    assert!(!plan.contains(&Backend::Gcc));
}

#[test]
fn build_plan_secondary_after_primary() {
    let mut options = BuildOptions::new();
    options.set_build_gcc_backend(true);
    let builder = CompilerBuilderDependencies::new(&options);
    let plan = builder.build();
    assert_eq!(plan, vec![Backend::Llvm, Backend::Gcc]);
}

#[test]
fn options_defaults() {
    let options = BuildOptions::new();
    assert!(!options.get_build_gcc_backend());
    assert!(!options.get_build_cbindgen());
    assert_eq!(options.get_llvm_build().major(), 17);
    assert_eq!(options.get_gcc_build().major(), 15);
}

#[test]
fn llvm_defaults() {
    let spec = LLVMBuild::new();
    assert_eq!(spec.c_compiler(), "gcc");
    assert_eq!(spec.cpp_compiler(), "g++");
    assert_eq!(spec.c_flags(), "");
    assert_eq!(spec.cpp_flags(), "");
    assert!(spec.enable_pic());
    assert!(!spec.share_libs());
    assert!(!spec.x86_libs());
    assert!(!spec.dylib());
    assert!(!spec.static_link_libcpp());
    assert!(!spec.llvm_libc());
    assert!(!spec.enable_libcpp());
    assert!(!spec.enable_clang_modules());
    assert!(!spec.enable_pdb());
    assert!(!spec.temporarily_allow_old_toolchain());
    assert!(!spec.optimize_tblgen());
    assert_eq!(spec.linker(), "");
    assert!(!spec.debug_commands());
}
