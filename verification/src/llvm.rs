//! Option model and flag compiler for the LLVM-family backend.
//!
//! `LLVMBuild` is the declarative build configuration: a semantic version, a
//! derived download URL, compiler selection and flags, and a closed set of
//! feature toggles. The flag compiler turns one such configuration into the
//! ordered argument list of the CMake configure step; every derived name (URL,
//! archive file, extracted directory) is pinned to a spec-level model built
//! from the same version rendering, so they can never drift apart.

use vstd::prelude::*;
use vstd::string::StringExecFns;

use crate::cmd::append_args;
use crate::cmd::arg_concat;
use crate::cmd::push_arg;
use crate::cmd::push_arg_if;
use crate::decimal::dec_chars;
use crate::decimal::u32_to_string;

verus! {

/// `major.minor.patch`, e.g. `17.0.6`.
pub open spec fn version_chars(major: u32, minor: u32, patch: u32) -> Seq<char> {
    dec_chars(major as nat) + seq!['.'] + dec_chars(minor as nat) + seq!['.'] + dec_chars(
        patch as nat,
    )
}

/// Renders `major.minor.patch` in decimal.
pub fn version_string(major: u32, minor: u32, patch: u32) -> (r: String)
    ensures
        r@ == version_chars(major, minor, patch),
{
    proof {
        reveal_strlit(".");
        assert("."@ =~= seq!['.']);
    }
    let mut r = u32_to_string(major);
    r.append(".");
    let minor_s = u32_to_string(minor);
    r.append(minor_s.as_str());
    r.append(".");
    let patch_s = u32_to_string(patch);
    r.append(patch_s.as_str());
    proof {
        assert(r@ =~= version_chars(major, minor, patch));
    }
    r
}

/// The archive file name the release publishes for a given version.
pub open spec fn llvm_archive_name_chars(major: u32, minor: u32, patch: u32) -> Seq<char> {
    "llvm-project-"@ + version_chars(major, minor, patch) + ".src.tar.xz"@
}

/// The directory name found at the top level of the release archive. This is
/// a naming convention, not discovered from the archive itself: if upstream
/// ever renames the internal directory, the computed path silently points at
/// a nonexistent location.
pub open spec fn llvm_source_dir_name_chars(major: u32, minor: u32, patch: u32) -> Seq<char> {
    "llvm-project-"@ + version_chars(major, minor, patch) + ".src"@
}

/// The release page directory that the download URL points into.
pub open spec fn llvm_release_dir_chars(major: u32, minor: u32, patch: u32) -> Seq<char> {
    "https://github.com/llvm/llvm-project/releases/download/llvmorg-"@ + version_chars(
        major,
        minor,
        patch,
    )
}

/// The download URL derived from a version triple.
pub open spec fn llvm_url_chars(major: u32, minor: u32, patch: u32) -> Seq<char> {
    "https://github.com/llvm/llvm-project/releases/download/llvmorg-"@ + version_chars(
        major,
        minor,
        patch,
    ) + "/llvm-project-"@ + version_chars(major, minor, patch) + ".src.tar.xz"@
}

/// The URL's final path segment is exactly the archive file name, both built
/// from the same version rendering: the two can never disagree about the
/// version they speak of.
pub proof fn lemma_llvm_url_names_archive(major: u32, minor: u32, patch: u32)
    ensures
        llvm_url_chars(major, minor, patch) == llvm_release_dir_chars(major, minor, patch)
            + seq!['/'] + llvm_archive_name_chars(major, minor, patch),
{
    reveal_strlit("/llvm-project-");
    reveal_strlit("llvm-project-");
    reveal_strlit("/");
    assert("/llvm-project-"@ =~= seq!['/'] + "llvm-project-"@);
    assert(llvm_url_chars(major, minor, patch) =~= llvm_release_dir_chars(major, minor, patch)
        + seq!['/'] + llvm_archive_name_chars(major, minor, patch));
}

/// Builds the download URL for a version triple.
pub fn build_llvm_url(major: u32, minor: u32, patch: u32) -> (r: String)
    ensures
        r@ == llvm_url_chars(major, minor, patch),
{
    let mut r = "https://github.com/llvm/llvm-project/releases/download/llvmorg-".to_owned();
    let v = version_string(major, minor, patch);
    r.append(v.as_str());
    r.append("/llvm-project-");
    r.append(v.as_str());
    r.append(".src.tar.xz");
    proof {
        assert(r@ =~= llvm_url_chars(major, minor, patch));
    }
    r
}

#[derive(Debug)]
pub struct LLVMBuild {
    pub major: u32,
    pub minor: u32,
    pub patch: u32,
    pub cflags: String,
    pub cppflags: String,
    pub c_compiler: String,
    pub cpp_compiler: String,
    pub release_type: LLVMReleaseType,
    pub url: String,
    pub build_share_libs: bool,
    pub build_x86_libs: bool,
    pub build_llvm_dylib: bool,
    pub static_link_libcpp: bool,
    pub llvm_libc: bool,
    pub enable_clang_modules: bool,
    pub enable_libcpp: bool,
    pub enable_pic: bool,
    pub enable_pdb: bool,
    pub optimize_tblgen: bool,
    pub temporarily_allow_old_toolchain: bool,
    pub use_linker: String,
    pub debug_commands: bool,
}

/// The documented construction state: the defaults of a fresh
/// configuration, with the URL already consistent with the default version.
pub open spec fn is_default_llvm_build(s: LLVMBuild) -> bool {
    &&& s.major == 17
    &&& s.minor == 0
    &&& s.patch == 6
    &&& s.c_compiler@ == "gcc"@
    &&& s.cpp_compiler@ == "g++"@
    &&& s.cflags@ == Seq::<char>::empty()
    &&& s.cppflags@ == Seq::<char>::empty()
    &&& s.release_type == LLVMReleaseType::Release
    &&& s.url@ == llvm_url_chars(17, 0, 6)
    &&& !s.build_share_libs
    &&& !s.build_x86_libs
    &&& !s.build_llvm_dylib
    &&& !s.enable_clang_modules
    &&& !s.static_link_libcpp
    &&& !s.llvm_libc
    &&& !s.enable_libcpp
    &&& s.enable_pic
    &&& !s.enable_pdb
    &&& !s.optimize_tblgen
    &&& !s.temporarily_allow_old_toolchain
    &&& s.use_linker@ == Seq::<char>::empty()
    &&& !s.debug_commands
}

impl LLVMBuild {
    /// The hard-coded defaults match the known-good 17.0.6 upstream release;
    /// the URL starts out already consistent with that version.
    pub fn new() -> (r: Self)
        ensures
            is_default_llvm_build(r),
    {
        Self {
            major: 17,
            minor: 0,
            patch: 6,
            c_compiler: "gcc".to_owned(),
            cpp_compiler: "g++".to_owned(),
            cflags: String::new(),
            cppflags: String::new(),
            release_type: LLVMReleaseType::Release,
            url: build_llvm_url(17, 0, 6),
            build_share_libs: false,
            build_x86_libs: false,
            build_llvm_dylib: false,
            enable_clang_modules: false,
            static_link_libcpp: false,
            llvm_libc: false,
            enable_libcpp: false,
            enable_pic: true,
            enable_pdb: false,
            optimize_tblgen: false,
            temporarily_allow_old_toolchain: false,
            use_linker: String::new(),
            debug_commands: false,
        }
    }
}

impl LLVMBuild {
    pub fn set_major(&mut self, major: u32)
        ensures
            *final(self) == (LLVMBuild { major, ..*old(self) }),
    {
        self.major = major;
    }

    pub fn set_minor(&mut self, minor: u32)
        ensures
            *final(self) == (LLVMBuild { minor, ..*old(self) }),
    {
        self.minor = minor;
    }

    pub fn set_patch(&mut self, patch: u32)
        ensures
            *final(self) == (LLVMBuild { patch, ..*old(self) }),
    {
        self.patch = patch;
    }

    pub fn set_c_compiler(&mut self, c_compiler: String)
        ensures
            *final(self) == (LLVMBuild { c_compiler, ..*old(self) }),
    {
        self.c_compiler = c_compiler;
    }

    pub fn set_cpp_compiler(&mut self, cpp_compiler: String)
        ensures
            *final(self) == (LLVMBuild { cpp_compiler, ..*old(self) }),
    {
        self.cpp_compiler = cpp_compiler;
    }

    pub fn set_release_type(&mut self, release_type: LLVMReleaseType)
        ensures
            *final(self) == (LLVMBuild { release_type, ..*old(self) }),
    {
        self.release_type = release_type;
    }

    pub fn set_c_flags(&mut self, cflags: String)
        ensures
            *final(self) == (LLVMBuild { cflags, ..*old(self) }),
    {
        self.cflags = cflags;
    }

    pub fn set_cpp_flags(&mut self, cppflags: String)
        ensures
            *final(self) == (LLVMBuild { cppflags, ..*old(self) }),
    {
        self.cppflags = cppflags;
    }

    pub fn set_build_share_libs(&mut self, build_share_libs: bool)
        ensures
            *final(self) == (LLVMBuild { build_share_libs, ..*old(self) }),
    {
        self.build_share_libs = build_share_libs;
    }

    pub fn set_x86_libs(&mut self, build_x86_libs: bool)
        ensures
            *final(self) == (LLVMBuild { build_x86_libs, ..*old(self) }),
    {
        self.build_x86_libs = build_x86_libs;
    }

    pub fn set_dylib(&mut self, build_llvm_dylib: bool)
        ensures
            *final(self) == (LLVMBuild { build_llvm_dylib, ..*old(self) }),
    {
        self.build_llvm_dylib = build_llvm_dylib;
    }

    pub fn set_static_link_libcpp(&mut self, static_link_libcpp: bool)
        ensures
            *final(self) == (LLVMBuild { static_link_libcpp, ..*old(self) }),
    {
        self.static_link_libcpp = static_link_libcpp;
    }

    pub fn set_linker(&mut self, linker: String)
        ensures
            *final(self) == (LLVMBuild { use_linker: linker, ..*old(self) }),
    {
        self.use_linker = linker;
    }

    pub fn set_llvm_libc(&mut self, llvm_libc: bool)
        ensures
            *final(self) == (LLVMBuild { llvm_libc, ..*old(self) }),
    {
        self.llvm_libc = llvm_libc;
    }

    pub fn set_enable_pic(&mut self, enable_pic: bool)
        ensures
            *final(self) == (LLVMBuild { enable_pic, ..*old(self) }),
    {
        self.enable_pic = enable_pic;
    }

    pub fn set_enable_libcpp(&mut self, enable_libcpp: bool)
        ensures
            *final(self) == (LLVMBuild { enable_libcpp, ..*old(self) }),
    {
        self.enable_libcpp = enable_libcpp;
    }

    pub fn set_enable_clang_modules(&mut self, enable_clang_modules: bool)
        ensures
            *final(self) == (LLVMBuild { enable_clang_modules, ..*old(self) }),
    {
        self.enable_clang_modules = enable_clang_modules;
    }

    pub fn set_enable_pdb(&mut self, enable_pdb: bool)
        ensures
            *final(self) == (LLVMBuild { enable_pdb, ..*old(self) }),
    {
        self.enable_pdb = enable_pdb;
    }

    pub fn set_temporarily_allow_old_toolchain(&mut self, temporarily_allow_old_toolchain: bool)
        ensures
            *final(self) == (LLVMBuild { temporarily_allow_old_toolchain, ..*old(self) }),
    {
        self.temporarily_allow_old_toolchain = temporarily_allow_old_toolchain;
    }

    pub fn set_optimize_tblgen(&mut self, optimize_tblgen: bool)
        ensures
            *final(self) == (LLVMBuild { optimize_tblgen, ..*old(self) }),
    {
        self.optimize_tblgen = optimize_tblgen;
    }

    pub fn set_debug_commands(&mut self, value: bool)
        ensures
            *final(self) == (LLVMBuild { debug_commands: value, ..*old(self) }),
    {
        self.debug_commands = value;
    }

    /// Recomputes the download URL from the current version fields. Must run
    /// after the version setters and before the pipeline: version mutations
    /// made later leave the URL stale until the next call.
    pub fn setup_all(&mut self)
        ensures
            *final(self) == (LLVMBuild {
                url: final (self).url,
                ..*old(self)
            }),
            final (self).url@ == llvm_url_chars(old(self).major, old(self).minor, old(self).patch),
    {
        self.url = build_llvm_url(self.major, self.minor, self.patch);
    }
}

impl LLVMBuild {
    pub fn major(&self) -> (r: u32)
        ensures
            r == self.major,
    {
        self.major
    }

    pub fn minor(&self) -> (r: u32)
        ensures
            r == self.minor,
    {
        self.minor
    }

    pub fn patch(&self) -> (r: u32)
        ensures
            r == self.patch,
    {
        self.patch
    }

    pub fn c_compiler(&self) -> (r: &str)
        ensures
            r@ == self.c_compiler@,
    {
        self.c_compiler.as_str()
    }

    pub fn cpp_compiler(&self) -> (r: &str)
        ensures
            r@ == self.cpp_compiler@,
    {
        self.cpp_compiler.as_str()
    }

    pub fn release_type(&self) -> (r: &LLVMReleaseType)
        ensures
            *r == self.release_type,
    {
        &self.release_type
    }

    pub fn cpp_flags(&self) -> (r: &str)
        ensures
            r@ == self.cppflags@,
    {
        self.cppflags.as_str()
    }

    pub fn c_flags(&self) -> (r: &str)
        ensures
            r@ == self.cflags@,
    {
        self.cflags.as_str()
    }

    pub fn url(&self) -> (r: &str)
        ensures
            r@ == self.url@,
    {
        self.url.as_str()
    }

    pub fn share_libs(&self) -> (r: bool)
        ensures
            r == self.build_share_libs,
    {
        self.build_share_libs
    }

    pub fn x86_libs(&self) -> (r: bool)
        ensures
            r == self.build_x86_libs,
    {
        self.build_x86_libs
    }

    pub fn dylib(&self) -> (r: bool)
        ensures
            r == self.build_llvm_dylib,
    {
        self.build_llvm_dylib
    }

    pub fn static_link_libcpp(&self) -> (r: bool)
        ensures
            r == self.static_link_libcpp,
    {
        self.static_link_libcpp
    }

    pub fn linker(&self) -> (r: &str)
        ensures
            r@ == self.use_linker@,
    {
        self.use_linker.as_str()
    }

    pub fn llvm_libc(&self) -> (r: bool)
        ensures
            r == self.llvm_libc,
    {
        self.llvm_libc
    }

    pub fn enable_pic(&self) -> (r: bool)
        ensures
            r == self.enable_pic,
    {
        self.enable_pic
    }

    pub fn enable_libcpp(&self) -> (r: bool)
        ensures
            r == self.enable_libcpp,
    {
        self.enable_libcpp
    }

    pub fn enable_clang_modules(&self) -> (r: bool)
        ensures
            r == self.enable_clang_modules,
    {
        self.enable_clang_modules
    }

    pub fn enable_pdb(&self) -> (r: bool)
        ensures
            r == self.enable_pdb,
    {
        self.enable_pdb
    }

    pub fn temporarily_allow_old_toolchain(&self) -> (r: bool)
        ensures
            r == self.temporarily_allow_old_toolchain,
    {
        self.temporarily_allow_old_toolchain
    }

    pub fn optimize_tblgen(&self) -> (r: bool)
        ensures
            r == self.optimize_tblgen,
    {
        self.optimize_tblgen
    }

    pub fn debug_commands(&self) -> (r: bool)
        ensures
            r == self.debug_commands,
    {
        self.debug_commands
    }
}

#[derive(Debug, PartialEq, Eq, Structural, Clone, Copy)]
pub enum LLVMReleaseType {
    Debug,
    Release,
    MinSizeRel,
}

/// The CMake name of each build type.
pub open spec fn release_type_chars(t: LLVMReleaseType) -> Seq<char> {
    match t {
        LLVMReleaseType::Debug => "Debug"@,
        LLVMReleaseType::Release => "Release"@,
        LLVMReleaseType::MinSizeRel => "MinSizeRel"@,
    }
}

impl LLVMReleaseType {
    pub fn get_repr(&self) -> (r: &'static str)
        ensures
            r@ == release_type_chars(*self),
    {
        match self {
            LLVMReleaseType::Debug => "Debug",
            LLVMReleaseType::Release => "Release",
            LLVMReleaseType::MinSizeRel => "MinSizeRel",
        }
    }
}

/// The name of the directory that extraction leaves in the scratch
/// directory, computed from the version fields alone.
pub fn get_descompressed_folder_directory(llvm_build: &LLVMBuild) -> (r: String)
    ensures
        r@ == llvm_source_dir_name_chars(llvm_build.major, llvm_build.minor, llvm_build.patch),
{
    let mut r = "llvm-project-".to_owned();
    let v = version_string(llvm_build.major, llvm_build.minor, llvm_build.patch);
    r.append(v.as_str());
    r.append(".src");
    proof {
        assert(r@ =~= llvm_source_dir_name_chars(
            llvm_build.major,
            llvm_build.minor,
            llvm_build.patch,
        ));
    }
    r
}

/// One boolean feature toggle of the CMake flag compiler. Each toggle owns
/// at most one argument of the compiled list; the emission policy is not
/// uniform (some emit only when enabled, PIC emits only when disabled), so
/// the toggles are enumerated explicitly.
#[derive(Debug, Clone, Copy, PartialEq, Eq, Structural)]
pub enum LLVMToggle {
    Pic,
    OldToolchain,
    OptimizeTblgen,
    Pdb,
    ClangModules,
    Libcpp,
    LlvmLibc,
    StaticLinkLibcpp,
    ShareLibs,
    X86Libs,
    Dylib,
}

/// The configuration field that a toggle reads.
pub open spec fn toggle_value(s: LLVMBuild, t: LLVMToggle) -> bool {
    match t {
        LLVMToggle::Pic => s.enable_pic,
        LLVMToggle::OldToolchain => s.temporarily_allow_old_toolchain,
        LLVMToggle::OptimizeTblgen => s.optimize_tblgen,
        LLVMToggle::Pdb => s.enable_pdb,
        LLVMToggle::ClangModules => s.enable_clang_modules,
        LLVMToggle::Libcpp => s.enable_libcpp,
        LLVMToggle::LlvmLibc => s.llvm_libc,
        LLVMToggle::StaticLinkLibcpp => s.static_link_libcpp,
        LLVMToggle::ShareLibs => s.build_share_libs,
        LLVMToggle::X86Libs => s.build_x86_libs,
        LLVMToggle::Dylib => s.build_llvm_dylib,
    }
}

/// The configuration with one toggle set to `v` and every other field kept.
pub open spec fn with_toggle(s: LLVMBuild, t: LLVMToggle, v: bool) -> LLVMBuild {
    match t {
        LLVMToggle::Pic => LLVMBuild { enable_pic: v, ..s },
        LLVMToggle::OldToolchain => LLVMBuild { temporarily_allow_old_toolchain: v, ..s },
        LLVMToggle::OptimizeTblgen => LLVMBuild { optimize_tblgen: v, ..s },
        LLVMToggle::Pdb => LLVMBuild { enable_pdb: v, ..s },
        LLVMToggle::ClangModules => LLVMBuild { enable_clang_modules: v, ..s },
        LLVMToggle::Libcpp => LLVMBuild { enable_libcpp: v, ..s },
        LLVMToggle::LlvmLibc => LLVMBuild { llvm_libc: v, ..s },
        LLVMToggle::StaticLinkLibcpp => LLVMBuild { static_link_libcpp: v, ..s },
        LLVMToggle::ShareLibs => LLVMBuild { build_share_libs: v, ..s },
        LLVMToggle::X86Libs => LLVMBuild { build_x86_libs: v, ..s },
        LLVMToggle::Dylib => LLVMBuild { build_llvm_dylib: v, ..s },
    }
}

/// What a toggle contributes to the argument list for a given value. PIC
/// emits only when disabled (the tool's own default is on); every other
/// toggle emits only when enabled.
pub open spec fn toggle_emission(t: LLVMToggle, v: bool) -> Seq<Seq<char>> {
    match t {
        LLVMToggle::Pic => if v {
            Seq::empty()
        } else {
            seq!["-DLLVM_ENABLE_PIC=OFF"@]
        },
        LLVMToggle::OldToolchain => if v {
            seq!["-DLLVM_TEMPORARILY_ALLOW_OLD_TOOLCHAIN=ON"@]
        } else {
            Seq::empty()
        },
        LLVMToggle::OptimizeTblgen => if v {
            seq!["-DLLVM_OPTIMIZED_TABLEGEN=ON"@]
        } else {
            Seq::empty()
        },
        LLVMToggle::Pdb => if v {
            seq!["-DLLVM_ENABLE_PDB=ON"@]
        } else {
            Seq::empty()
        },
        LLVMToggle::ClangModules => if v {
            seq!["-DLLVM_ENABLE_CLANG_MDDULES=ON"@]
        } else {
            Seq::empty()
        },
        LLVMToggle::Libcpp => if v {
            seq!["-DLLVM_ENABLE_LIBCXX=ON"@]
        } else {
            Seq::empty()
        },
        LLVMToggle::LlvmLibc => if v {
            seq!["-DLLVM_ENABLE_LLVM_LIBC=TRUE"@]
        } else {
            Seq::empty()
        },
        LLVMToggle::StaticLinkLibcpp => if v {
            seq!["-DLLVM_STATIC_LINK_CXX_STDLIB=ON"@]
        } else {
            Seq::empty()
        },
        LLVMToggle::ShareLibs => if v {
            seq!["-DBUILD_SHARED_LIBS=ON"@]
        } else {
            Seq::empty()
        },
        LLVMToggle::X86Libs => if v {
            seq!["-DLLVM_BUILD_32_BITS=ON"@]
        } else {
            Seq::empty()
        },
        LLVMToggle::Dylib => if v {
            seq!["-DLLVM_BUILD_LLVM_DYLIB=ON"@]
        } else {
            Seq::empty()
        },
    }
}

/// What a toggle contributes under a given configuration.
pub open spec fn toggle_segment(s: LLVMBuild, t: LLVMToggle) -> Seq<Seq<char>> {
    toggle_emission(t, toggle_value(s, t))
}

/// The linker override contributes one argument only when a linker is named.
pub open spec fn linker_segment(s: LLVMBuild) -> Seq<Seq<char>> {
    if s.use_linker@.len() == 0 {
        Seq::empty()
    } else {
        seq!["-DLLVM_USE_LINKER="@ + s.use_linker@]
    }
}

/// The CMake source directory handed to `-S`: the `llvm` subproject of the
/// extracted tree.
pub open spec fn llvm_cmake_source_chars(source: Seq<char>) -> Seq<char> {
    source + "/llvm"@
}

/// The CMake build directory handed to `-B`.
pub open spec fn llvm_build_dir_chars(source: Seq<char>) -> Seq<char> {
    source + "/llvm/build"@
}

/// The unconditional head of the compiled argument list: generator, source
/// and build directories, build type, compiler selection and flags, and the
/// fixed set of disabled heavyweight optional features.
pub open spec fn cmake_base_args(s: LLVMBuild, source: Seq<char>, install_dir: Seq<char>) -> Seq<
    Seq<char>,
> {
    seq![
        "-G"@,
        "Ninja"@,
        "-S"@,
        llvm_cmake_source_chars(source),
        "-B"@,
        llvm_build_dir_chars(source),
        "-DCMAKE_BUILD_TYPE="@ + release_type_chars(s.release_type),
        "-DCMAKE_C_COMPILER="@ + s.c_compiler@,
        "-DCMAKE_CXX_COMPILER="@ + s.cpp_compiler@,
        "-DCMAKE_C_FLAGS="@ + s.cflags@,
        "-DCMAKE_CXX_FLAGS="@ + s.cppflags@,
        "-DCMAKE_DISABLE_FIND_PACKAGE_LibXml2=TRUE"@,
        "-DLLVM_ENABLE_LIBXML2=0"@,
        "-DLLVM_TARGETS_TO_BUILD=all"@,
        "-DLLVM_ENABLE_PROJECTS=llvm"@,
        "-DLLVM_ENABLE_TERMINFO=OFF"@,
        "-DLLVM_ENABLE_ZLIB=OFF"@,
        "-DCMAKE_INSTALL_PREFIX="@ + install_dir,
        "-DLLVM_INCLUDE_BENCHMARKS=OFF"@,
        "-DLLVM_BUILD_TESTS=OFF"@,
        "-DLLVM_BUILD_EXAMPLES=OFF"@,
        "-DLLVM_INCLUDE_TESTS=OFF"@,
    ]
}

/// The conditional tail with one slot per toggle, in a fixed order; `at` is
/// substituted for the slot of toggle `t`. With `at == toggle_segment(s, t)`
/// this is the compiled tail itself; the substitution form lets the
/// cross-talk law state that flipping `t` touches no other slot.
pub open spec fn toggle_args_with(s: LLVMBuild, t: LLVMToggle, at: Seq<Seq<char>>) -> Seq<
    Seq<char>,
> {
    linker_segment(s) + (if t == LLVMToggle::Pic {
        at
    } else {
        toggle_segment(s, LLVMToggle::Pic)
    }) + (if t == LLVMToggle::OldToolchain {
        at
    } else {
        toggle_segment(s, LLVMToggle::OldToolchain)
    }) + (if t == LLVMToggle::OptimizeTblgen {
        at
    } else {
        toggle_segment(s, LLVMToggle::OptimizeTblgen)
    }) + (if t == LLVMToggle::Pdb {
        at
    } else {
        toggle_segment(s, LLVMToggle::Pdb)
    }) + (if t == LLVMToggle::ClangModules {
        at
    } else {
        toggle_segment(s, LLVMToggle::ClangModules)
    }) + (if t == LLVMToggle::Libcpp {
        at
    } else {
        toggle_segment(s, LLVMToggle::Libcpp)
    }) + (if t == LLVMToggle::LlvmLibc {
        at
    } else {
        toggle_segment(s, LLVMToggle::LlvmLibc)
    }) + (if t == LLVMToggle::StaticLinkLibcpp {
        at
    } else {
        toggle_segment(s, LLVMToggle::StaticLinkLibcpp)
    }) + (if t == LLVMToggle::ShareLibs {
        at
    } else {
        toggle_segment(s, LLVMToggle::ShareLibs)
    }) + (if t == LLVMToggle::X86Libs {
        at
    } else {
        toggle_segment(s, LLVMToggle::X86Libs)
    }) + (if t == LLVMToggle::Dylib {
        at
    } else {
        toggle_segment(s, LLVMToggle::Dylib)
    })
}

/// The compiled conditional tail: every slot holds its own toggle's segment.
pub open spec fn cmake_toggle_args(s: LLVMBuild) -> Seq<Seq<char>> {
    linker_segment(s) + toggle_segment(s, LLVMToggle::Pic) + toggle_segment(
        s,
        LLVMToggle::OldToolchain,
    ) + toggle_segment(s, LLVMToggle::OptimizeTblgen) + toggle_segment(s, LLVMToggle::Pdb)
        + toggle_segment(s, LLVMToggle::ClangModules) + toggle_segment(s, LLVMToggle::Libcpp)
        + toggle_segment(s, LLVMToggle::LlvmLibc) + toggle_segment(
        s,
        LLVMToggle::StaticLinkLibcpp,
    ) + toggle_segment(s, LLVMToggle::ShareLibs) + toggle_segment(s, LLVMToggle::X86Libs)
        + toggle_segment(s, LLVMToggle::Dylib)
}

/// The whole argument list of the CMake configure step.
pub open spec fn cmake_configure_args(
    s: LLVMBuild,
    source: Seq<char>,
    install_dir: Seq<char>,
) -> Seq<Seq<char>> {
    cmake_base_args(s, source, install_dir) + cmake_toggle_args(s)
}

/// The flag compiler is a pure function of the configuration: two argument
/// lists compiled from the same unmodified configuration are equal, however
/// often and in whatever order they are compiled.
pub proof fn lemma_cmake_args_deterministic(
    s: LLVMBuild,
    source: Seq<char>,
    install_dir: Seq<char>,
    r1: Seq<Seq<char>>,
    r2: Seq<Seq<char>>,
)
    requires
        r1 == cmake_configure_args(s, source, install_dir),
        r2 == cmake_configure_args(s, source, install_dir),
    ensures
        r1 == r2,
{
}

/// Setting one toggle leaves the base arguments, the linker slot and every
/// other toggle's slot exactly as they were, and gives the set toggle's slot
/// its emission for the new value: no cross-talk between toggles.
#[verifier::rlimit(100)]
pub proof fn lemma_toggle_no_cross_talk(s: LLVMBuild, t: LLVMToggle, v: bool)
    ensures
        forall|u: LLVMToggle|
            u != t ==> toggle_segment(with_toggle(s, t, v), u) == toggle_segment(s, u),
        linker_segment(with_toggle(s, t, v)) == linker_segment(s),
        forall|source: Seq<char>, install_dir: Seq<char>|
            cmake_base_args(with_toggle(s, t, v), source, install_dir) == cmake_base_args(
                s,
                source,
                install_dir,
            ),
        toggle_segment(with_toggle(s, t, v), t) == toggle_emission(t, v),
{
    let s2 = with_toggle(s, t, v);
    assert(s2.use_linker == s.use_linker && s2.release_type == s.release_type && s2.c_compiler
        == s.c_compiler && s2.cpp_compiler == s.cpp_compiler && s2.cflags == s.cflags && s2.cppflags
        == s.cppflags);
    assert forall|source: Seq<char>, install_dir: Seq<char>|
        cmake_base_args(s2, source, install_dir) == cmake_base_args(s, source, install_dir) by {
        assert(cmake_base_args(s2, source, install_dir) =~= cmake_base_args(
            s,
            source,
            install_dir,
        ));
    }
    assert forall|u: LLVMToggle| u != t implies toggle_segment(s2, u) == toggle_segment(s, u) by {
        assert(toggle_value(s2, u) == toggle_value(s, u));
    }
}

/// Flipping one toggle changes exactly that toggle's slot of the compiled
/// list — replaced by its emission for the flipped value — and nothing else.
pub proof fn lemma_toggle_flip_changes_one_slot(
    s: LLVMBuild,
    t: LLVMToggle,
    source: Seq<char>,
    install_dir: Seq<char>,
)
    ensures
        cmake_configure_args(s, source, install_dir) == cmake_base_args(s, source, install_dir)
            + toggle_args_with(s, t, toggle_segment(s, t)),
        cmake_configure_args(with_toggle(s, t, !toggle_value(s, t)), source, install_dir)
            == cmake_base_args(s, source, install_dir) + toggle_args_with(
            s,
            t,
            toggle_emission(t, !toggle_value(s, t)),
        ),
{
    let flipped = with_toggle(s, t, !toggle_value(s, t));
    lemma_toggle_no_cross_talk(s, t, !toggle_value(s, t));
    assert(cmake_toggle_args(s) == toggle_args_with(s, t, toggle_segment(s, t)));
    assert(cmake_toggle_args(flipped) == toggle_args_with(
        s,
        t,
        toggle_emission(t, !toggle_value(s, t)),
    ));
}

/// The unconditional head of the configure arguments, as a vector.
fn cmake_base_vec(llvm_build: &LLVMBuild, llvm_source: &str, install_dir: &str) -> (r: Vec<String>)
    ensures
        r.deep_view() == cmake_base_args(*llvm_build, llvm_source@, install_dir@),
{
    let mut args: Vec<String> = Vec::new();
    push_arg(&mut args, "-G".to_owned());
    push_arg(&mut args, "Ninja".to_owned());
    push_arg(&mut args, "-S".to_owned());
    push_arg(&mut args, arg_concat(llvm_source, "/llvm"));
    push_arg(&mut args, "-B".to_owned());
    push_arg(&mut args, arg_concat(llvm_source, "/llvm/build"));
    push_arg(&mut args, arg_concat("-DCMAKE_BUILD_TYPE=", llvm_build.release_type().get_repr()));
    push_arg(&mut args, arg_concat("-DCMAKE_C_COMPILER=", llvm_build.c_compiler()));
    push_arg(&mut args, arg_concat("-DCMAKE_CXX_COMPILER=", llvm_build.cpp_compiler()));
    push_arg(&mut args, arg_concat("-DCMAKE_C_FLAGS=", llvm_build.c_flags()));
    push_arg(&mut args, arg_concat("-DCMAKE_CXX_FLAGS=", llvm_build.cpp_flags()));
    push_arg(&mut args, "-DCMAKE_DISABLE_FIND_PACKAGE_LibXml2=TRUE".to_owned());
    push_arg(&mut args, "-DLLVM_ENABLE_LIBXML2=0".to_owned());
    push_arg(&mut args, "-DLLVM_TARGETS_TO_BUILD=all".to_owned());
    push_arg(&mut args, "-DLLVM_ENABLE_PROJECTS=llvm".to_owned());
    push_arg(&mut args, "-DLLVM_ENABLE_TERMINFO=OFF".to_owned());
    push_arg(&mut args, "-DLLVM_ENABLE_ZLIB=OFF".to_owned());
    push_arg(&mut args, arg_concat("-DCMAKE_INSTALL_PREFIX=", install_dir));
    push_arg(&mut args, "-DLLVM_INCLUDE_BENCHMARKS=OFF".to_owned());
    push_arg(&mut args, "-DLLVM_BUILD_TESTS=OFF".to_owned());
    push_arg(&mut args, "-DLLVM_BUILD_EXAMPLES=OFF".to_owned());
    push_arg(&mut args, "-DLLVM_INCLUDE_TESTS=OFF".to_owned());
    proof {
        assert(args.deep_view() =~= cmake_base_args(*llvm_build, llvm_source@, install_dir@));
    }
    args
}

/// The conditional tail of the configure arguments, as a vector: one slot
/// per toggle, in the fixed order of `cmake_toggle_args`.
fn cmake_toggle_vec(llvm_build: &LLVMBuild) -> (r: Vec<String>)
    ensures
        r.deep_view() == cmake_toggle_args(*llvm_build),
{
    let mut args: Vec<String> = Vec::new();
    proof {
        assert(args.deep_view() =~= Seq::<Seq<char>>::empty());
    }
    let linker_arg = arg_concat("-DLLVM_USE_LINKER=", llvm_build.linker());
    push_arg_if(&mut args, !llvm_build.linker().is_empty(), linker_arg);
    proof {
        assert(args.deep_view() =~= linker_segment(*llvm_build));
    }
    push_arg_if(&mut args, !llvm_build.enable_pic(), "-DLLVM_ENABLE_PIC=OFF".to_owned());
    push_arg_if(
        &mut args,
        llvm_build.temporarily_allow_old_toolchain(),
        "-DLLVM_TEMPORARILY_ALLOW_OLD_TOOLCHAIN=ON".to_owned(),
    );
    push_arg_if(&mut args, llvm_build.optimize_tblgen(), "-DLLVM_OPTIMIZED_TABLEGEN=ON".to_owned());
    push_arg_if(&mut args, llvm_build.enable_pdb(), "-DLLVM_ENABLE_PDB=ON".to_owned());
    push_arg_if(
        &mut args,
        llvm_build.enable_clang_modules(),
        "-DLLVM_ENABLE_CLANG_MDDULES=ON".to_owned(),
    );
    push_arg_if(&mut args, llvm_build.enable_libcpp(), "-DLLVM_ENABLE_LIBCXX=ON".to_owned());
    push_arg_if(&mut args, llvm_build.llvm_libc(), "-DLLVM_ENABLE_LLVM_LIBC=TRUE".to_owned());
    push_arg_if(
        &mut args,
        llvm_build.static_link_libcpp(),
        "-DLLVM_STATIC_LINK_CXX_STDLIB=ON".to_owned(),
    );
    push_arg_if(&mut args, llvm_build.share_libs(), "-DBUILD_SHARED_LIBS=ON".to_owned());
    push_arg_if(&mut args, llvm_build.x86_libs(), "-DLLVM_BUILD_32_BITS=ON".to_owned());
    push_arg_if(&mut args, llvm_build.dylib(), "-DLLVM_BUILD_LLVM_DYLIB=ON".to_owned());
    proof {
        assert(args.deep_view() == cmake_toggle_args(*llvm_build));
    }
    args
}

/// The flag compiler for the CMake-based backend: turns one configuration
/// into the ordered argument list of the configure step. Deterministic and
/// side-effect-free; the toggles are appended in a fixed order after the
/// unconditional base.
pub fn compile_cmake_args(llvm_build: &LLVMBuild, llvm_source: &str, install_dir: &str) -> (r: Vec<
    String,
>)
    ensures
        r.deep_view() == cmake_configure_args(*llvm_build, llvm_source@, install_dir@),
{
    let mut args = cmake_base_vec(llvm_build, llvm_source, install_dir);
    let toggles = cmake_toggle_vec(llvm_build);
    append_args(&mut args, toggles);
    args
}

/// The arguments of the parallel build tool's compile invocation.
pub open spec fn ninja_build_args_chars(source: Seq<char>) -> Seq<Seq<char>> {
    seq!["-C"@, llvm_build_dir_chars(source)]
}

/// Compiles the build tool's compile-step arguments.
pub fn ninja_build_args(llvm_source: &str) -> (r: Vec<String>)
    ensures
        r.deep_view() == ninja_build_args_chars(llvm_source@),
{
    let mut args: Vec<String> = Vec::new();
    push_arg(&mut args, "-C".to_owned());
    push_arg(&mut args, arg_concat(llvm_source, "/llvm/build"));
    proof {
        assert(args.deep_view() =~= ninja_build_args_chars(llvm_source@));
    }
    args
}

/// The arguments of the parallel build tool's install invocation.
pub open spec fn ninja_install_args_chars(source: Seq<char>) -> Seq<Seq<char>> {
    seq!["-C"@, llvm_build_dir_chars(source), "install"@]
}

/// Compiles the build tool's install-step arguments.
pub fn ninja_install_args(llvm_source: &str) -> (r: Vec<String>)
    ensures
        r.deep_view() == ninja_install_args_chars(llvm_source@),
{
    let mut args: Vec<String> = Vec::new();
    push_arg(&mut args, "-C".to_owned());
    push_arg(&mut args, arg_concat(llvm_source, "/llvm/build"));
    push_arg(&mut args, "install".to_owned());
    proof {
        assert(args.deep_view() =~= ninja_install_args_chars(llvm_source@));
    }
    args
}

/// The build type a command-line word selects; anything unrecognised means
/// the default release build.
pub open spec fn release_type_of_spec(s: Seq<char>) -> LLVMReleaseType {
    if s == "Debug"@ {
        LLVMReleaseType::Debug
    } else if s == "Release"@ {
        LLVMReleaseType::Release
    } else if s == "MinSizeRel"@ {
        LLVMReleaseType::MinSizeRel
    } else {
        LLVMReleaseType::Release
    }
}

/// Parses a build-type word.
pub fn parse_release_type(s: &str) -> (r: LLVMReleaseType)
    ensures
        r == release_type_of_spec(s@),
{
    if crate::utils::str_eq(s, "Debug") {
        LLVMReleaseType::Debug
    } else if crate::utils::str_eq(s, "Release") {
        LLVMReleaseType::Release
    } else if crate::utils::str_eq(s, "MinSizeRel") {
        LLVMReleaseType::MinSizeRel
    } else {
        LLVMReleaseType::Release
    }
}

/// The error reported when extraction of the downloaded archive fails.
pub fn decompress_failure_message() -> (r: &'static str)
    ensures
        r@ == "Failed to decompress LLVM archive"@,
{
    "Failed to decompress LLVM archive"
}

/// The archive file name the downloader writes into the scratch directory.
pub fn llvm_archive_name(llvm_build: &LLVMBuild) -> (r: String)
    ensures
        r@ == llvm_archive_name_chars(llvm_build.major, llvm_build.minor, llvm_build.patch),
{
    let mut r = "llvm-project-".to_owned();
    let v = version_string(llvm_build.major, llvm_build.minor, llvm_build.patch);
    r.append(v.as_str());
    r.append(".src.tar.xz");
    proof {
        assert(r@ =~= llvm_archive_name_chars(
            llvm_build.major,
            llvm_build.minor,
            llvm_build.patch,
        ));
    }
    r
}

} // verus!
