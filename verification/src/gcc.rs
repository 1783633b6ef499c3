//! Option model and flag compiler for the GCC-family backend.
//!
//! The Autotools path is simpler than the CMake path: a fixed pair of
//! configure arguments plus one conditional host-shared argument. Compiler
//! selection and flags travel as explicit environment assignments compiled
//! for the one configure subprocess — never by mutating the host process's
//! own environment.

use vstd::prelude::*;
use vstd::string::StringExecFns;

use crate::cmd::push_arg;
use crate::cmd::push_arg_if;
use crate::decimal::u32_to_string;
use crate::llvm::version_chars;
use crate::llvm::version_string;

verus! {

/// `gcc-major.minor.patch.tar.gz`: the version-bearing name shared by the
/// download URL's final segment and the local archive name.
pub open spec fn gcc_versioned_name_chars(major: u32, minor: u32, patch: u32) -> Seq<char> {
    "gcc-"@ + version_chars(major, minor, patch) + ".tar.gz"@
}

/// The download URL derived from a version triple.
pub open spec fn gcc_url_chars(major: u32, minor: u32, patch: u32) -> Seq<char> {
    "https://github.com/gcc-mirror/gcc/archive/refs/tags/releases/gcc-"@ + version_chars(
        major,
        minor,
        patch,
    ) + ".tar.gz"@
}

/// The archive file name the downloader writes into the scratch directory.
pub open spec fn gcc_archive_name_chars(major: u32, minor: u32, patch: u32) -> Seq<char> {
    "gcc-releases-gcc-"@ + version_chars(major, minor, patch) + ".tar.gz"@
}

/// The directory name found at the top level of the release archive,
/// computed by naming convention rather than discovered from the archive.
pub open spec fn gcc_source_dir_name_chars(major: u32, minor: u32, patch: u32) -> Seq<char> {
    "gcc-releases-gcc-"@ + version_chars(major, minor, patch)
}

/// The URL's final path segment and the local archive name are built from
/// the same version rendering: the URL ends with `gcc-<version>.tar.gz` and
/// the archive name is that segment behind the fixed `gcc-releases-` prefix.
pub proof fn lemma_gcc_url_names_archive(major: u32, minor: u32, patch: u32)
    ensures
        gcc_url_chars(major, minor, patch)
            == "https://github.com/gcc-mirror/gcc/archive/refs/tags/releases/"@
            + gcc_versioned_name_chars(major, minor, patch),
        gcc_archive_name_chars(major, minor, patch) == "gcc-releases-"@ + gcc_versioned_name_chars(
            major,
            minor,
            patch,
        ),
{
    reveal_strlit("https://github.com/gcc-mirror/gcc/archive/refs/tags/releases/gcc-");
    reveal_strlit("https://github.com/gcc-mirror/gcc/archive/refs/tags/releases/");
    reveal_strlit("gcc-releases-gcc-");
    reveal_strlit("gcc-releases-");
    reveal_strlit("gcc-");
    assert("https://github.com/gcc-mirror/gcc/archive/refs/tags/releases/gcc-"@
        =~= "https://github.com/gcc-mirror/gcc/archive/refs/tags/releases/"@ + "gcc-"@);
    assert("gcc-releases-gcc-"@ =~= "gcc-releases-"@ + "gcc-"@);
    assert(gcc_url_chars(major, minor, patch)
        =~= "https://github.com/gcc-mirror/gcc/archive/refs/tags/releases/"@
        + gcc_versioned_name_chars(major, minor, patch));
    assert(gcc_archive_name_chars(major, minor, patch) =~= "gcc-releases-"@
        + gcc_versioned_name_chars(major, minor, patch));
}

/// Builds the download URL for a version triple.
pub fn build_gcc_url(major: u32, minor: u32, patch: u32) -> (r: String)
    ensures
        r@ == gcc_url_chars(major, minor, patch),
{
    let mut r = "https://github.com/gcc-mirror/gcc/archive/refs/tags/releases/gcc-".to_owned();
    let v = version_string(major, minor, patch);
    r.append(v.as_str());
    r.append(".tar.gz");
    proof {
        assert(r@ =~= gcc_url_chars(major, minor, patch));
    }
    r
}

#[derive(Debug)]
pub struct GCCBuild {
    pub major: u32,
    pub minor: u32,
    pub patch: u32,
    pub url: String,
    pub host_shared: bool,
    pub c_compiler_command: String,
    pub cpp_compiler_command: String,
    pub c_compiler_flags: String,
    pub cpp_compiler_flags: String,
    pub debug_commands: bool,
}

/// The documented construction state: the defaults of a fresh
/// configuration, with the URL already consistent with the default version.
pub open spec fn is_default_gcc_build(s: GCCBuild) -> bool {
    &&& s.major == 15
    &&& s.minor == 2
    &&& s.patch == 0
    &&& s.url@ == gcc_url_chars(15, 2, 0)
    &&& s.host_shared
    &&& s.c_compiler_command@ == Seq::<char>::empty()
    &&& s.cpp_compiler_command@ == Seq::<char>::empty()
    &&& s.c_compiler_flags@ == Seq::<char>::empty()
    &&& s.cpp_compiler_flags@ == Seq::<char>::empty()
    &&& !s.debug_commands
}

impl GCCBuild {
    /// The hard-coded defaults match the known-good 15.2.0 upstream release;
    /// the URL starts out already consistent with that version.
    pub fn new() -> (r: Self)
        ensures
            is_default_gcc_build(r),
    {
        GCCBuild {
            major: 15,
            minor: 2,
            patch: 0,
            url: build_gcc_url(15, 2, 0),
            host_shared: true,
            c_compiler_command: String::new(),
            cpp_compiler_command: String::new(),
            c_compiler_flags: String::new(),
            cpp_compiler_flags: String::new(),
            debug_commands: false,
        }
    }
}

impl GCCBuild {
    pub fn set_major(&mut self, major: u32)
        ensures
            *final(self) == (GCCBuild { major, ..*old(self) }),
    {
        self.major = major;
    }

    pub fn set_minor(&mut self, minor: u32)
        ensures
            *final(self) == (GCCBuild { minor, ..*old(self) }),
    {
        self.minor = minor;
    }

    pub fn set_patch(&mut self, patch: u32)
        ensures
            *final(self) == (GCCBuild { patch, ..*old(self) }),
    {
        self.patch = patch;
    }

    pub fn set_host_shared(&mut self, host_shared: bool)
        ensures
            *final(self) == (GCCBuild { host_shared, ..*old(self) }),
    {
        self.host_shared = host_shared;
    }

    pub fn set_c_compiler_flags(&mut self, flags: String)
        ensures
            *final(self) == (GCCBuild { c_compiler_flags: flags, ..*old(self) }),
    {
        self.c_compiler_flags = flags;
    }

    pub fn set_cpp_compiler_flags(&mut self, flags: String)
        ensures
            *final(self) == (GCCBuild { cpp_compiler_flags: flags, ..*old(self) }),
    {
        self.cpp_compiler_flags = flags;
    }

    pub fn set_c_compiler_command(&mut self, command: String)
        ensures
            *final(self) == (GCCBuild { c_compiler_command: command, ..*old(self) }),
    {
        self.c_compiler_command = command;
    }

    pub fn set_cpp_compiler_command(&mut self, command: String)
        ensures
            *final(self) == (GCCBuild { cpp_compiler_command: command, ..*old(self) }),
    {
        self.cpp_compiler_command = command;
    }

    pub fn set_debug_commands(&mut self, debug_commands: bool)
        ensures
            *final(self) == (GCCBuild { debug_commands, ..*old(self) }),
    {
        self.debug_commands = debug_commands;
    }

    /// Recomputes the download URL from the current version fields. Must run
    /// after the version setters and before the pipeline; compiler selection
    /// and flags are not applied here — they are compiled into per-process
    /// environment assignments by `gcc_configure_env`, scoped to the one
    /// configure subprocess.
    pub fn setup_all(&mut self)
        ensures
            *final(self) == (GCCBuild { url: final (self).url, ..*old(self) }),
            final (self).url@ == gcc_url_chars(old(self).major, old(self).minor, old(self).patch),
    {
        self.url = build_gcc_url(self.major, self.minor, self.patch);
    }
}

impl GCCBuild {
    pub fn major(&self) -> (r: u32)
        ensures
            r == self.major,
    {
        self.major
    }

    pub fn minor(&self) -> (r: u32)
        ensures
            r == self.minor,
    {
        self.minor
    }

    pub fn patch(&self) -> (r: u32)
        ensures
            r == self.patch,
    {
        self.patch
    }

    pub fn url(&self) -> (r: &str)
        ensures
            r@ == self.url@,
    {
        self.url.as_str()
    }

    pub fn host_shared(&self) -> (r: bool)
        ensures
            r == self.host_shared,
    {
        self.host_shared
    }

    pub fn c_compiler_flags(&self) -> (r: &str)
        ensures
            r@ == self.c_compiler_flags@,
    {
        self.c_compiler_flags.as_str()
    }

    pub fn cpp_compiler_flags(&self) -> (r: &str)
        ensures
            r@ == self.cpp_compiler_flags@,
    {
        self.cpp_compiler_flags.as_str()
    }

    pub fn c_compiler_command(&self) -> (r: &str)
        ensures
            r@ == self.c_compiler_command@,
    {
        self.c_compiler_command.as_str()
    }

    pub fn cpp_compiler_command(&self) -> (r: &str)
        ensures
            r@ == self.cpp_compiler_command@,
    {
        self.cpp_compiler_command.as_str()
    }

    pub fn debug_commands(&self) -> (r: bool)
        ensures
            r == self.debug_commands,
    {
        self.debug_commands
    }
}

/// What the host-shared toggle contributes to the configure argument list.
pub open spec fn host_shared_segment_of(v: bool) -> Seq<Seq<char>> {
    if v {
        seq!["--enable-host-shared"@]
    } else {
        Seq::empty()
    }
}

/// The configure argument list of the Autotools-based backend: a fixed
/// enable-JIT / disable-bootstrap pair, then the host-shared slot.
pub open spec fn gcc_configure_args_chars(s: GCCBuild) -> Seq<Seq<char>> {
    seq!["--enable-languages=jit"@, "--disable-bootstrap"@] + host_shared_segment_of(s.host_shared)
}

/// Flipping the host-shared toggle changes exactly its own slot of the
/// configure argument list — the fixed head stays as it is — and leaves the
/// compiled environment assignments untouched.
pub proof fn lemma_host_shared_no_cross_talk(s: GCCBuild, v: bool)
    ensures
        gcc_configure_args_chars(GCCBuild { host_shared: v, ..s })
            == seq!["--enable-languages=jit"@, "--disable-bootstrap"@] + host_shared_segment_of(v),
        gcc_env_chars(GCCBuild { host_shared: v, ..s }) == gcc_env_chars(s),
{
}

/// The flag compiler for the Autotools-based backend.
pub fn gcc_configure_args(gcc_build: &GCCBuild) -> (r: Vec<String>)
    ensures
        r.deep_view() == gcc_configure_args_chars(*gcc_build),
{
    let mut args: Vec<String> = Vec::new();
    push_arg(&mut args, "--enable-languages=jit".to_owned());
    push_arg(&mut args, "--disable-bootstrap".to_owned());
    proof {
        assert(args.deep_view() =~= seq!["--enable-languages=jit"@, "--disable-bootstrap"@]);
    }
    push_arg_if(&mut args, gcc_build.host_shared(), "--enable-host-shared".to_owned());
    args
}

/// The model of a compiled environment-assignment list.
pub open spec fn env_pairs_view(v: Seq<(String, String)>) -> Seq<(Seq<char>, Seq<char>)> {
    Seq::new(v.len(), |i: int| (v[i].0@, v[i].1@))
}

/// One environment assignment, contributed only when the value is set.
pub open spec fn env_entry_of(name: Seq<char>, value: Seq<char>) -> Seq<(Seq<char>, Seq<char>)> {
    if value.len() == 0 {
        Seq::empty()
    } else {
        seq![(name, value)]
    }
}

/// The environment assignments of the configure subprocess: `CC`, `CXX`,
/// `CFLAGS` and `CXXFLAGS`, each present exactly when the corresponding
/// field is non-empty.
pub open spec fn gcc_env_chars(s: GCCBuild) -> Seq<(Seq<char>, Seq<char>)> {
    env_entry_of("CC"@, s.c_compiler_command@) + env_entry_of("CXX"@, s.cpp_compiler_command@)
        + env_entry_of("CFLAGS"@, s.c_compiler_flags@) + env_entry_of(
        "CXXFLAGS"@,
        s.cpp_compiler_flags@,
    )
}

/// Appends `(name, value)` only when the value is non-empty.
fn push_env_if(env: &mut Vec<(String, String)>, name: &str, value: &str)
    ensures
        env_pairs_view(final (env)@) == env_pairs_view(old(env)@) + env_entry_of(name@, value@),
{
    let ghost before = env_pairs_view(env@);
    if !value.is_empty() {
        env.push((name.to_owned(), value.to_owned()));
        proof {
            assert(env_pairs_view(env@) =~= before + env_entry_of(name@, value@));
        }
    } else {
        proof {
            assert(env_pairs_view(env@) =~= before + env_entry_of(name@, value@));
        }
    }
}

/// Compiles the environment assignments for the configure subprocess. The
/// assignments are handed to the one spawned process; the host process's
/// own environment is never mutated.
pub fn gcc_configure_env(gcc_build: &GCCBuild) -> (r: Vec<(String, String)>)
    ensures
        env_pairs_view(r@) == gcc_env_chars(*gcc_build),
{
    let mut env: Vec<(String, String)> = Vec::new();
    proof {
        assert(env_pairs_view(env@) =~= Seq::<(Seq<char>, Seq<char>)>::empty());
    }
    push_env_if(&mut env, "CC", gcc_build.c_compiler_command());
    proof {
        assert(env_pairs_view(env@) =~= env_entry_of("CC"@, gcc_build.c_compiler_command@));
    }
    push_env_if(&mut env, "CXX", gcc_build.cpp_compiler_command());
    push_env_if(&mut env, "CFLAGS", gcc_build.c_compiler_flags());
    push_env_if(&mut env, "CXXFLAGS", gcc_build.cpp_compiler_flags());
    env
}

/// The name of the directory that extraction leaves in the scratch
/// directory, computed from the version fields alone.
pub fn get_descompressed_folder_directory(gcc_build: &GCCBuild) -> (r: String)
    ensures
        r@ == gcc_source_dir_name_chars(gcc_build.major, gcc_build.minor, gcc_build.patch),
{
    let mut r = "gcc-releases-gcc-".to_owned();
    let v = version_string(gcc_build.major, gcc_build.minor, gcc_build.patch);
    r.append(v.as_str());
    proof {
        assert(r@ =~= gcc_source_dir_name_chars(gcc_build.major, gcc_build.minor, gcc_build.patch));
    }
    r
}

/// The error reported when extraction of the downloaded archive fails.
pub fn decompress_failure_message() -> (r: &'static str)
    ensures
        r@ == "Failed to decompress GCC archive"@,
{
    "Failed to decompress GCC archive"
}

/// The archive file name the downloader writes into the scratch directory.
pub fn gcc_archive_name(gcc_build: &GCCBuild) -> (r: String)
    ensures
        r@ == gcc_archive_name_chars(gcc_build.major, gcc_build.minor, gcc_build.patch),
{
    let mut r = "gcc-releases-gcc-".to_owned();
    let v = version_string(gcc_build.major, gcc_build.minor, gcc_build.patch);
    r.append(v.as_str());
    r.append(".tar.gz");
    proof {
        assert(r@ =~= gcc_archive_name_chars(gcc_build.major, gcc_build.minor, gcc_build.patch));
    }
    r
}

} // verus!
