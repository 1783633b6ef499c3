//! The command line: argument splitting, the flag table, and the mutations
//! each flag makes to the build configuration.
//!
//! Nothing here prints or ends the process. Where the surrounding program
//! must act — show the help text, print the version, stop on a missing
//! value — the outcome says so and the caller decides; tool probing is done
//! outside and its results are judged by `check_requirements`.

use vstd::prelude::*;
use vstd::string::StrSliceExecFns;
use vstd::string::StringExecFns;

use crate::cmd::push_arg;
use crate::cmd::push_arg_if;
use crate::decimal::parse_bool_or;
use crate::decimal::parse_bool_or_spec;
use crate::decimal::parse_u32_or;
use crate::decimal::parse_u32_or_spec;
use crate::gcc::gcc_url_chars;
use crate::gcc::GCCBuild;
use crate::llvm::llvm_url_chars;
use crate::llvm::parse_release_type;
use crate::llvm::release_type_of_spec;
use crate::llvm::LLVMBuild;
use crate::options::is_default_build_options;
use crate::options::BuildOptions;
use crate::utils::str_eq;

verus! {

/// What the caller must do once the scanner hands control back: go on with
/// the build, show the help text, print the version, or report that a flag
/// came without its value.
#[derive(Debug, Clone, Copy, PartialEq, Eq, Structural)]
pub enum CliOutcome {
    Proceed,
    Help,
    Version,
    MissingValue,
}

/// The message reported when a flag that takes a value ends the line.
pub fn expected_value_message() -> (r: &'static str)
    ensures
        r@ == "Expected value after flag."@,
{
    "Expected value after flag."
}

/// The position of the first occurrence of `c`, or -1 when `c` does not
/// occur.
pub open spec fn first_index_of(s: Seq<char>, c: char) -> int
    decreases s.len(),
{
    if s.len() == 0 {
        -1
    } else if s[0] == c {
        0
    } else {
        let r = first_index_of(s.subrange(1, s.len() as int), c);
        if r == -1 {
            -1
        } else {
            r + 1
        }
    }
}

proof fn lemma_first_index_found(s: Seq<char>, c: char, i: int)
    requires
        0 <= i < s.len(),
        s[i] == c,
        forall|j: int| 0 <= j < i ==> s[j] != c,
    ensures
        first_index_of(s, c) == i,
    decreases s.len(),
{
    if i > 0 {
        let t = s.subrange(1, s.len() as int);
        assert(forall|j: int| 0 <= j < i - 1 ==> t[j] == s[j + 1]);
        lemma_first_index_found(t, c, i - 1);
    }
}

/// The found position is in range and holds the character.
proof fn lemma_first_index_bounds(s: Seq<char>, c: char)
    ensures
        -1 <= first_index_of(s, c) < s.len(),
        first_index_of(s, c) >= 0 ==> s[first_index_of(s, c)] == c,
    decreases s.len(),
{
    if s.len() > 0 && s[0] != c {
        lemma_first_index_bounds(s.subrange(1, s.len() as int), c);
    }
}

proof fn lemma_first_index_none(s: Seq<char>, c: char)
    requires
        forall|j: int| 0 <= j < s.len() ==> s[j] != c,
    ensures
        first_index_of(s, c) == -1,
    decreases s.len(),
{
    if s.len() > 0 {
        let t = s.subrange(1, s.len() as int);
        assert(forall|j: int| 0 <= j < t.len() ==> t[j] == s[j + 1]);
        lemma_first_index_none(t, c);
    }
}

/// Finds the first occurrence of a character.
fn find_char(s: &str, c: char) -> (r: Option<usize>)
    ensures
        r == (if first_index_of(s@, c) >= 0 {
            Some(first_index_of(s@, c) as usize)
        } else {
            None::<usize>
        }),
{
    let n = s.unicode_len();
    let mut i: usize = 0;
    while i < n
        invariant
            n == s@.len(),
            i <= n,
            forall|j: int| 0 <= j < i ==> s@[j] != c,
        decreases n - i,
    {
        if s.get_char(i) == c {
            proof {
                lemma_first_index_found(s@, c, i as int);
            }
            return Some(i);
        }
        i = i + 1;
    }
    proof {
        lemma_first_index_none(s@, c);
    }
    None
}

/// The key part of one raw argument: everything before the first `=`, or —
/// when there is no `=` — before the first `:`, or the whole argument.
pub open spec fn parsed_key_spec(arg: Seq<char>) -> Seq<char> {
    let e = first_index_of(arg, '=');
    let k = first_index_of(arg, ':');
    if e >= 0 {
        arg.subrange(0, e)
    } else if k >= 0 {
        arg.subrange(0, k)
    } else {
        arg
    }
}

/// The value part of one raw argument: everything after the separator that
/// split the key off, if one did.
pub open spec fn parsed_value_spec(arg: Seq<char>) -> Option<Seq<char>> {
    let e = first_index_of(arg, '=');
    let k = first_index_of(arg, ':');
    if e >= 0 {
        Some(arg.subrange(e + 1, arg.len() as int))
    } else if k >= 0 {
        Some(arg.subrange(k + 1, arg.len() as int))
    } else {
        None
    }
}

/// One raw argument split into a key and an optional inline value.
#[derive(Debug)]
pub struct ParsedArg {
    pub key: String,
    pub value: Option<String>,
}

impl ParsedArg {
    /// Splits at the first `=`, or at the first `:` when no `=` occurs.
    pub fn new(arg: &str) -> (r: Self)
        ensures
            r.key@ == parsed_key_spec(arg@),
            r.value.deep_view() == parsed_value_spec(arg@),
    {
        let n = arg.unicode_len();
        proof {
            lemma_first_index_bounds(arg@, '=');
            lemma_first_index_bounds(arg@, ':');
        }
        if let Some(eq_pos) = find_char(arg, '=') {
            let key = arg.substring_char(0, eq_pos).to_owned();
            let value = arg.substring_char(eq_pos + 1, n).to_owned();
            return Self { key, value: Some(value) };
        }
        if let Some(col_pos) = find_char(arg, ':') {
            let key = arg.substring_char(0, col_pos).to_owned();
            let value = arg.substring_char(col_pos + 1, n).to_owned();
            return Self { key, value: Some(value) };
        }
        Self { key: arg.to_owned(), value: None }
    }
}

/// What one raw argument contributes to the scanned argument list: its key,
/// then its inline value when it carries one.
pub open spec fn split_arg_spec(arg: Seq<char>) -> Seq<Seq<char>> {
    match parsed_value_spec(arg) {
        Some(v) => seq![parsed_key_spec(arg), v],
        None => seq![parsed_key_spec(arg)],
    }
}

/// The scanned argument list of a whole raw argument vector.
pub open spec fn preprocess_spec(args: Seq<Seq<char>>) -> Seq<Seq<char>>
    decreases args.len(),
{
    if args.len() == 0 {
        Seq::empty()
    } else {
        preprocess_spec(args.drop_last()) + split_arg_spec(args.last())
    }
}

#[derive(Debug)]
pub struct CommandLine {
    pub options: BuildOptions,
    pub args: Vec<String>,
    pub current: usize,
}

impl CommandLine {
    /// Drops the program name, then splits every raw argument into key and
    /// inline value.
    pub fn preprocess_args(args: &mut Vec<String>) -> (r: Vec<String>)
        ensures
            r.deep_view() == (if old(args)@.len() == 0 {
                Seq::<Seq<char>>::empty()
            } else {
                preprocess_spec(
                    old(args).deep_view().subrange(1, old(args)@.len() as int),
                )
            }),
    {
        let ghost original = args.deep_view();
        if !args.is_empty() {
            args.remove(0);
            proof {
                assert(args.deep_view() =~= original.subrange(1, original.len() as int));
            }
        }
        let ghost rest = args.deep_view();
        let mut processed: Vec<String> = Vec::new();
        let mut i: usize = 0;
        proof {
            assert(processed.deep_view() =~= preprocess_spec(rest.subrange(0, 0)));
        }
        while i < args.len()
            invariant
                rest == args.deep_view(),
                i <= args@.len(),
                rest.len() == args@.len(),
                processed.deep_view() == preprocess_spec(rest.subrange(0, i as int)),
            decreases args@.len() - i,
        {
            let parsed = ParsedArg::new(args[i].as_str());
            proof {
                assert(args.deep_view()[i as int] == args@[i as int]@);
                assert(rest.subrange(0, i as int + 1).drop_last() =~= rest.subrange(0, i as int));
                assert(rest.subrange(0, i as int + 1).last() == rest[i as int]);
            }
            push_arg(&mut processed, parsed.key);
            if let Some(value) = parsed.value {
                push_arg(&mut processed, value);
            }
            i = i + 1;
        }
        proof {
            assert(rest.subrange(0, rest.len() as int) =~= rest);
        }
        processed
    }
}

impl CommandLine {
    /// Whether every scanned argument has been consumed.
    pub fn is_eof(&self) -> (r: bool)
        ensures
            r == (self.current >= self.args@.len()),
    {
        self.current >= self.args.len()
    }

    /// The argument under the cursor; asking past the end is the
    /// missing-value condition.
    pub fn peek(&self) -> (r: Result<&str, CliOutcome>)
        ensures
            self.current < self.args@.len() ==> (r matches Ok(s) && s@ == self.args.deep_view()[self.current as int]),
            self.current >= self.args@.len() ==> r == Err::<&str, CliOutcome>(
                CliOutcome::MissingValue,
            ),
    {
        if self.is_eof() {
            return Err(CliOutcome::MissingValue);
        }
        let s = self.args[self.current].as_str();
        proof {
            assert(self.args.deep_view()[self.current as int] == self.args@[self.current as int]@);
        }
        Ok(s)
    }

    /// Moves the cursor one argument forward; moving past the end is the
    /// missing-value condition.
    pub fn advance(&mut self) -> (r: Result<(), CliOutcome>)
        ensures
            final(self).options == old(self).options,
            final(self).args == old(self).args,
            old(self).current < old(self).args@.len() ==> (r == Ok::<(), CliOutcome>(()) && final(self).current == old(self).current + 1),
            old(self).current >= old(self).args@.len() ==> (r == Err::<(), CliOutcome>(
                CliOutcome::MissingValue,
            ) && *final(self) == *old(self)),
    {
        if self.current < self.args.len() {
            self.current = self.current + 1;
            Ok(())
        } else {
            Err(CliOutcome::MissingValue)
        }
    }

    /// Consumes the value that must follow the flag under the cursor.
    fn take_value(&mut self) -> (r: Result<String, CliOutcome>)
        requires
            old(self).current < old(self).args@.len(),
        ensures
            final(self).options == old(self).options,
            final(self).args == old(self).args,
            old(self).current + 1 < old(self).args@.len() ==> (r matches Ok(v) && v@ == old(self).args.deep_view()[old(self).current as int + 1] && final(self).current == old(self).current + 2),
            old(self).current + 1 >= old(self).args@.len() ==> (r == Err::<String, CliOutcome>(
                CliOutcome::MissingValue,
            ) && final(self).current == old(self).current + 1),
    {
        match self.advance() {
            Ok(()) => {},
            Err(o) => { return Err(o) },
        }
        let value = match self.peek() {
            Ok(v) => v.to_owned(),
            Err(o) => { return Err(o) },
        };
        match self.advance() {
            Ok(()) => {},
            Err(o) => { return Err(o) },
        }
        Ok(value)
    }
}

impl CommandLine {
    pub fn get_options(&self) -> (r: &BuildOptions)
        ensures
            *r == self.options,
    {
        &self.options
    }

    pub fn get_mut_options(&mut self) -> (r: &mut BuildOptions)
        ensures
            *r == old(self).options,
            *final(self) == (CommandLine { options: *final(r), ..*old(self) }),
    {
        &mut self.options
    }
}

/// A step that only asks the caller to act: the cursor moves past the flag
/// and the configuration is untouched.
pub open spec fn step_signal(pre: CommandLine, post: CommandLine, r: CliOutcome, sig: CliOutcome) -> bool {
    post.options == pre.options && post.args == pre.args && post.current == pre.current + 1 && r
        == sig
}

/// A flag that needed a value found the line's end instead: the cursor
/// stands past the flag and the configuration is untouched.
pub open spec fn step_missing(pre: CommandLine, post: CommandLine, r: CliOutcome) -> bool {
    post.options == pre.options && post.args == pre.args && post.current == pre.current + 1 && r
        == CliOutcome::MissingValue
}

/// A flag and its value were consumed.
pub open spec fn step_valued(pre: CommandLine, post: CommandLine, r: CliOutcome) -> bool {
    post.args == pre.args && post.current == pre.current + 2 && r == CliOutcome::Proceed
}

/// A bare flag was consumed.
pub open spec fn step_flag(pre: CommandLine, post: CommandLine, r: CliOutcome) -> bool {
    post.args == pre.args && post.current == pre.current + 1 && r == CliOutcome::Proceed
}

/// Every command-line word the scanner knows, one variant per flag.
#[derive(Debug, Clone, Copy, PartialEq, Eq, Structural)]
pub enum ArgKind {
    Help,
    Version,
    LlvmMajor,
    LlvmMinor,
    LlvmPatch,
    LlvmCCompiler,
    LlvmCppCompiler,
    LlvmCppFlags,
    LlvmCFlags,
    LlvmReleaseType,
    LlvmShareLibs,
    LlvmX86Libs,
    LlvmDylib,
    LlvmStaticLinkLibcpp,
    LlvmUseLinker,
    LlvmLibc,
    LlvmPic,
    LlvmLibcpp,
    LlvmClangModules,
    LlvmPdb,
    LlvmOldToolchain,
    LlvmOptimizeTblgen,
    Gcc,
    GccMajor,
    GccMinor,
    GccPatch,
    GccHostShared,
    GccCFlags,
    GccCppFlags,
    GccCCommand,
    GccCppCommand,
    DebugLlvm,
    DebugGcc,
    Unknown,
}

/// The flag a command-line word names. Opaque: the table is revealed only
/// where a word is actually recognised.
#[verifier::opaque]
pub open spec fn classify_spec(arg: Seq<char>) -> ArgKind {
    if arg == "-h"@ || arg == "--help"@ || arg == "help"@ {
        ArgKind::Help
    } else if arg == "-v"@ || arg == "--version"@ || arg == "version"@ {
        ArgKind::Version
    } else if arg == "--llvm-major"@ {
        ArgKind::LlvmMajor
    } else if arg == "--llvm-minor"@ {
        ArgKind::LlvmMinor
    } else if arg == "--llvm-patch"@ {
        ArgKind::LlvmPatch
    } else if arg == "--llvm-c-compiler"@ {
        ArgKind::LlvmCCompiler
    } else if arg == "--llvm-cpp-compiler"@ {
        ArgKind::LlvmCppCompiler
    } else if arg == "--llvm-cpp-flags"@ {
        ArgKind::LlvmCppFlags
    } else if arg == "--llvm-c-flags"@ {
        ArgKind::LlvmCFlags
    } else if arg == "--llvm-release-type"@ {
        ArgKind::LlvmReleaseType
    } else if arg == "--llvm-build-share-libs"@ {
        ArgKind::LlvmShareLibs
    } else if arg == "--llvm-build-x86-libs"@ {
        ArgKind::LlvmX86Libs
    } else if arg == "--llvm-build-dylib"@ {
        ArgKind::LlvmDylib
    } else if arg == "--llvm-link-statically-libcpp"@ {
        ArgKind::LlvmStaticLinkLibcpp
    } else if arg == "--llvm-use-linker"@ {
        ArgKind::LlvmUseLinker
    } else if arg == "--llvm-use-llvm-libc"@ {
        ArgKind::LlvmLibc
    } else if arg == "--llvm-pic"@ {
        ArgKind::LlvmPic
    } else if arg == "--llvm-libcpp"@ {
        ArgKind::LlvmLibcpp
    } else if arg == "--llvm-clang-modules"@ {
        ArgKind::LlvmClangModules
    } else if arg == "--llvm-pdb"@ {
        ArgKind::LlvmPdb
    } else if arg == "--llvm-temporarily-old-toolchain"@ {
        ArgKind::LlvmOldToolchain
    } else if arg == "--llvm-optimize-tblgen"@ {
        ArgKind::LlvmOptimizeTblgen
    } else if arg == "-gcc"@ {
        ArgKind::Gcc
    } else if arg == "--gcc-major"@ {
        ArgKind::GccMajor
    } else if arg == "--gcc-minor"@ {
        ArgKind::GccMinor
    } else if arg == "--gcc-patch"@ {
        ArgKind::GccPatch
    } else if arg == "--gcc-host-shared"@ {
        ArgKind::GccHostShared
    } else if arg == "--gcc-c-compiler-flags"@ {
        ArgKind::GccCFlags
    } else if arg == "--gcc-cpp-compiler-flags"@ {
        ArgKind::GccCppFlags
    } else if arg == "--gcc-c-compiler-command"@ {
        ArgKind::GccCCommand
    } else if arg == "--gcc-cpp-compiler-command"@ {
        ArgKind::GccCppCommand
    } else if arg == "--debug-llvm"@ {
        ArgKind::DebugLlvm
    } else if arg == "--debug-gcc"@ {
        ArgKind::DebugGcc
    } else {
        ArgKind::Unknown
    }
}

/// Recognises one command-line word.
pub fn classify(arg: &str) -> (k: ArgKind)
    ensures
        k == classify_spec(arg@),
{
    proof {
        reveal(classify_spec);
    }
    if str_eq(arg, "-h") || str_eq(arg, "--help") || str_eq(arg, "help") {
        return ArgKind::Help;
    }
    if str_eq(arg, "-v") || str_eq(arg, "--version") || str_eq(arg, "version") {
        return ArgKind::Version;
    }
    if str_eq(arg, "--llvm-major") {
        return ArgKind::LlvmMajor;
    }
    if str_eq(arg, "--llvm-minor") {
        return ArgKind::LlvmMinor;
    }
    if str_eq(arg, "--llvm-patch") {
        return ArgKind::LlvmPatch;
    }
    if str_eq(arg, "--llvm-c-compiler") {
        return ArgKind::LlvmCCompiler;
    }
    if str_eq(arg, "--llvm-cpp-compiler") {
        return ArgKind::LlvmCppCompiler;
    }
    if str_eq(arg, "--llvm-cpp-flags") {
        return ArgKind::LlvmCppFlags;
    }
    if str_eq(arg, "--llvm-c-flags") {
        return ArgKind::LlvmCFlags;
    }
    if str_eq(arg, "--llvm-release-type") {
        return ArgKind::LlvmReleaseType;
    }
    if str_eq(arg, "--llvm-build-share-libs") {
        return ArgKind::LlvmShareLibs;
    }
    if str_eq(arg, "--llvm-build-x86-libs") {
        return ArgKind::LlvmX86Libs;
    }
    if str_eq(arg, "--llvm-build-dylib") {
        return ArgKind::LlvmDylib;
    }
    if str_eq(arg, "--llvm-link-statically-libcpp") {
        return ArgKind::LlvmStaticLinkLibcpp;
    }
    if str_eq(arg, "--llvm-use-linker") {
        return ArgKind::LlvmUseLinker;
    }
    if str_eq(arg, "--llvm-use-llvm-libc") {
        return ArgKind::LlvmLibc;
    }
    if str_eq(arg, "--llvm-pic") {
        return ArgKind::LlvmPic;
    }
    if str_eq(arg, "--llvm-libcpp") {
        return ArgKind::LlvmLibcpp;
    }
    if str_eq(arg, "--llvm-clang-modules") {
        return ArgKind::LlvmClangModules;
    }
    if str_eq(arg, "--llvm-pdb") {
        return ArgKind::LlvmPdb;
    }
    if str_eq(arg, "--llvm-temporarily-old-toolchain") {
        return ArgKind::LlvmOldToolchain;
    }
    if str_eq(arg, "--llvm-optimize-tblgen") {
        return ArgKind::LlvmOptimizeTblgen;
    }
    if str_eq(arg, "-gcc") {
        return ArgKind::Gcc;
    }
    if str_eq(arg, "--gcc-major") {
        return ArgKind::GccMajor;
    }
    if str_eq(arg, "--gcc-minor") {
        return ArgKind::GccMinor;
    }
    if str_eq(arg, "--gcc-patch") {
        return ArgKind::GccPatch;
    }
    if str_eq(arg, "--gcc-host-shared") {
        return ArgKind::GccHostShared;
    }
    if str_eq(arg, "--gcc-c-compiler-flags") {
        return ArgKind::GccCFlags;
    }
    if str_eq(arg, "--gcc-cpp-compiler-flags") {
        return ArgKind::GccCppFlags;
    }
    if str_eq(arg, "--gcc-c-compiler-command") {
        return ArgKind::GccCCommand;
    }
    if str_eq(arg, "--gcc-cpp-compiler-command") {
        return ArgKind::GccCppCommand;
    }
    if str_eq(arg, "--debug-llvm") {
        return ArgKind::DebugLlvm;
    }
    if str_eq(arg, "--debug-gcc") {
        return ArgKind::DebugGcc;
    }
    ArgKind::Unknown
}

/// One block of the flag table: what each of its flags, with its value,
/// does to the configuration.
pub open spec fn llvm_flag_rel_a1(kind: ArgKind, pre: CommandLine, post: CommandLine, r: CliOutcome) -> bool {
    let has_value = pre.current + 1 < pre.args@.len();
    let val = pre.args.deep_view()[pre.current as int + 1];
    let o = pre.options;
    let lb = pre.options.llvm_build;
    match kind {
        ArgKind::LlvmMajor => if has_value {
            step_valued(pre, post, r) && post.options == (BuildOptions {
                llvm_build: (LLVMBuild { major: parse_u32_or_spec(val, 17), ..lb }),
                ..o
            })
        } else {
            step_missing(pre, post, r)
        },
        ArgKind::LlvmMinor => if has_value {
            step_valued(pre, post, r) && post.options == (BuildOptions {
                llvm_build: (LLVMBuild { minor: parse_u32_or_spec(val, 0), ..lb }),
                ..o
            })
        } else {
            step_missing(pre, post, r)
        },
        ArgKind::LlvmPatch => if has_value {
            step_valued(pre, post, r) && post.options == (BuildOptions {
                llvm_build: (LLVMBuild { patch: parse_u32_or_spec(val, 0), ..lb }),
                ..o
            })
        } else {
            step_missing(pre, post, r)
        },
        ArgKind::LlvmCCompiler => if has_value {
            step_valued(pre, post, r) && post.options.llvm_build.c_compiler@ == val && post.options == (BuildOptions {
                llvm_build: (LLVMBuild { c_compiler: post.options.llvm_build.c_compiler, ..lb }),
                ..o
            })
        } else {
            step_missing(pre, post, r)
        },
        ArgKind::LlvmCppCompiler => if has_value {
            step_valued(pre, post, r) && post.options.llvm_build.cpp_compiler@ == val && post.options == (BuildOptions {
                llvm_build: (LLVMBuild { cpp_compiler: post.options.llvm_build.cpp_compiler, ..lb }),
                ..o
            })
        } else {
            step_missing(pre, post, r)
        },
        _ => post == pre && r == CliOutcome::Help,
    }
}

/// One block of the flag table: what each of its flags, with its value,
/// does to the configuration.
pub open spec fn llvm_flag_rel_a2(kind: ArgKind, pre: CommandLine, post: CommandLine, r: CliOutcome) -> bool {
    let has_value = pre.current + 1 < pre.args@.len();
    let val = pre.args.deep_view()[pre.current as int + 1];
    let o = pre.options;
    let lb = pre.options.llvm_build;
    match kind {
        ArgKind::LlvmCppFlags => if has_value {
            step_valued(pre, post, r) && post.options.llvm_build.cppflags@ == val && post.options == (BuildOptions {
                llvm_build: (LLVMBuild { cppflags: post.options.llvm_build.cppflags, ..lb }),
                ..o
            })
        } else {
            step_missing(pre, post, r)
        },
        ArgKind::LlvmCFlags => if has_value {
            step_valued(pre, post, r) && post.options.llvm_build.cflags@ == val && post.options == (BuildOptions {
                llvm_build: (LLVMBuild { cflags: post.options.llvm_build.cflags, ..lb }),
                ..o
            })
        } else {
            step_missing(pre, post, r)
        },
        ArgKind::LlvmReleaseType => if has_value {
            step_valued(pre, post, r) && post.options == (BuildOptions {
                llvm_build: (LLVMBuild { release_type: release_type_of_spec(val), ..lb }),
                ..o
            })
        } else {
            step_missing(pre, post, r)
        },
        ArgKind::LlvmShareLibs => if has_value {
            step_valued(pre, post, r) && post.options == (BuildOptions {
                llvm_build: (LLVMBuild { build_share_libs: parse_bool_or_spec(val, true), ..lb }),
                ..o
            })
        } else {
            step_missing(pre, post, r)
        },
        ArgKind::LlvmX86Libs => if has_value {
            step_valued(pre, post, r) && post.options == (BuildOptions {
                llvm_build: (LLVMBuild { build_x86_libs: parse_bool_or_spec(val, true), ..lb }),
                ..o
            })
        } else {
            step_missing(pre, post, r)
        },
        _ => post == pre && r == CliOutcome::Help,
    }
}

/// One block of the flag table: what each of its flags, with its value,
/// does to the configuration.
pub open spec fn llvm_flag_rel_b1(kind: ArgKind, pre: CommandLine, post: CommandLine, r: CliOutcome) -> bool {
    let has_value = pre.current + 1 < pre.args@.len();
    let val = pre.args.deep_view()[pre.current as int + 1];
    let o = pre.options;
    let lb = pre.options.llvm_build;
    match kind {
        ArgKind::LlvmDylib => if has_value {
            step_valued(pre, post, r) && post.options == (BuildOptions {
                llvm_build: (LLVMBuild { build_llvm_dylib: parse_bool_or_spec(val, true), ..lb }),
                ..o
            })
        } else {
            step_missing(pre, post, r)
        },
        ArgKind::LlvmStaticLinkLibcpp => if has_value {
            step_valued(pre, post, r) && post.options == (BuildOptions {
                llvm_build: (LLVMBuild { static_link_libcpp: parse_bool_or_spec(val, true), ..lb }),
                ..o
            })
        } else {
            step_missing(pre, post, r)
        },
        ArgKind::LlvmUseLinker => if has_value {
            step_valued(pre, post, r) && post.options.llvm_build.use_linker@ == val && post.options == (BuildOptions {
                llvm_build: (LLVMBuild { use_linker: post.options.llvm_build.use_linker, ..lb }),
                ..o
            })
        } else {
            step_missing(pre, post, r)
        },
        ArgKind::LlvmLibc => if has_value {
            step_valued(pre, post, r) && post.options == (BuildOptions {
                llvm_build: (LLVMBuild { llvm_libc: parse_bool_or_spec(val, false), ..lb }),
                ..o
            })
        } else {
            step_missing(pre, post, r)
        },
        ArgKind::LlvmPic => if has_value {
            step_valued(pre, post, r) && post.options == (BuildOptions {
                llvm_build: (LLVMBuild { enable_pic: parse_bool_or_spec(val, true), ..lb }),
                ..o
            })
        } else {
            step_missing(pre, post, r)
        },
        _ => post == pre && r == CliOutcome::Help,
    }
}

/// One block of the flag table: what each of its flags, with its value,
/// does to the configuration.
pub open spec fn llvm_flag_rel_b2(kind: ArgKind, pre: CommandLine, post: CommandLine, r: CliOutcome) -> bool {
    let has_value = pre.current + 1 < pre.args@.len();
    let val = pre.args.deep_view()[pre.current as int + 1];
    let o = pre.options;
    let lb = pre.options.llvm_build;
    match kind {
        ArgKind::LlvmLibcpp => if has_value {
            step_valued(pre, post, r) && post.options == (BuildOptions {
                llvm_build: (LLVMBuild { enable_libcpp: parse_bool_or_spec(val, false), ..lb }),
                ..o
            })
        } else {
            step_missing(pre, post, r)
        },
        ArgKind::LlvmClangModules => if has_value {
            step_valued(pre, post, r) && post.options == (BuildOptions {
                llvm_build: (LLVMBuild { enable_clang_modules: parse_bool_or_spec(val, false), ..lb }),
                ..o
            })
        } else {
            step_missing(pre, post, r)
        },
        ArgKind::LlvmPdb => if has_value {
            step_valued(pre, post, r) && post.options == (BuildOptions {
                llvm_build: (LLVMBuild { enable_pdb: parse_bool_or_spec(val, false), ..lb }),
                ..o
            })
        } else {
            step_missing(pre, post, r)
        },
        ArgKind::LlvmOldToolchain => if has_value {
            step_valued(pre, post, r) && post.options == (BuildOptions {
                llvm_build: (LLVMBuild { temporarily_allow_old_toolchain: parse_bool_or_spec(val, false), ..lb }),
                ..o
            })
        } else {
            step_missing(pre, post, r)
        },
        ArgKind::LlvmOptimizeTblgen => if has_value {
            step_valued(pre, post, r) && post.options == (BuildOptions {
                llvm_build: (LLVMBuild { optimize_tblgen: parse_bool_or_spec(val, false), ..lb }),
                ..o
            })
        } else {
            step_missing(pre, post, r)
        },
        _ => post == pre && r == CliOutcome::Help,
    }
}

/// One block of the flag table: what each of its flags, with its value,
/// does to the configuration.
pub open spec fn gcc_flag_rel(kind: ArgKind, pre: CommandLine, post: CommandLine, r: CliOutcome) -> bool {
    let has_value = pre.current + 1 < pre.args@.len();
    let val = pre.args.deep_view()[pre.current as int + 1];
    let o = pre.options;
    let gb = pre.options.gcc_build;
    match kind {
        ArgKind::GccMajor => if has_value {
            step_valued(pre, post, r) && post.options == (BuildOptions {
                gcc_build: (GCCBuild { major: parse_u32_or_spec(val, 15), ..gb }),
                ..o
            })
        } else {
            step_missing(pre, post, r)
        },
        ArgKind::GccMinor => if has_value {
            step_valued(pre, post, r) && post.options == (BuildOptions {
                gcc_build: (GCCBuild { minor: parse_u32_or_spec(val, 2), ..gb }),
                ..o
            })
        } else {
            step_missing(pre, post, r)
        },
        ArgKind::GccPatch => if has_value {
            step_valued(pre, post, r) && post.options == (BuildOptions {
                gcc_build: (GCCBuild { patch: parse_u32_or_spec(val, 0), ..gb }),
                ..o
            })
        } else {
            step_missing(pre, post, r)
        },
        ArgKind::GccHostShared => if has_value {
            step_valued(pre, post, r) && post.options == (BuildOptions {
                gcc_build: (GCCBuild { host_shared: parse_bool_or_spec(val, true), ..gb }),
                ..o
            })
        } else {
            step_missing(pre, post, r)
        },
        ArgKind::GccCFlags => if has_value {
            step_valued(pre, post, r) && post.options.gcc_build.c_compiler_flags@ == val && post.options == (BuildOptions {
                gcc_build: (GCCBuild { c_compiler_flags: post.options.gcc_build.c_compiler_flags, ..gb }),
                ..o
            })
        } else {
            step_missing(pre, post, r)
        },
        ArgKind::GccCppFlags => if has_value {
            step_valued(pre, post, r) && post.options.gcc_build.cpp_compiler_flags@ == val && post.options == (BuildOptions {
                gcc_build: (GCCBuild { cpp_compiler_flags: post.options.gcc_build.cpp_compiler_flags, ..gb }),
                ..o
            })
        } else {
            step_missing(pre, post, r)
        },
        ArgKind::GccCCommand => if has_value {
            step_valued(pre, post, r) && post.options.gcc_build.c_compiler_command@ == val && post.options == (BuildOptions {
                gcc_build: (GCCBuild { c_compiler_command: post.options.gcc_build.c_compiler_command, ..gb }),
                ..o
            })
        } else {
            step_missing(pre, post, r)
        },
        ArgKind::GccCppCommand => if has_value {
            step_valued(pre, post, r) && post.options.gcc_build.cpp_compiler_command@ == val && post.options == (BuildOptions {
                gcc_build: (GCCBuild { cpp_compiler_command: post.options.gcc_build.cpp_compiler_command, ..gb }),
                ..o
            })
        } else {
            step_missing(pre, post, r)
        },
        _ => post == pre && r == CliOutcome::Help,
    }
}

/// The whole flag table: what one scanning step does to the command line,
/// given the argument under the cursor. Every flag that takes a value reads
/// the next argument; a missing one stops the scan. An unknown argument
/// asks for the help text and consumes nothing.
pub open spec fn analyze_rel(pre: CommandLine, post: CommandLine, r: CliOutcome) -> bool {
    let arg = pre.args.deep_view()[pre.current as int];
    let o = pre.options;
    let lb = pre.options.llvm_build;
    let gb = pre.options.gcc_build;
    match classify_spec(arg) {
        ArgKind::Help => step_signal(pre, post, r, CliOutcome::Help),
        ArgKind::Version => step_signal(pre, post, r, CliOutcome::Version),
        ArgKind::Gcc => step_flag(pre, post, r) && post.options == (BuildOptions {
            build_gcc_backend: true,
            ..o
        }),
        ArgKind::DebugLlvm => step_flag(pre, post, r) && post.options == (BuildOptions {
            llvm_build: (LLVMBuild { debug_commands: true, ..lb }),
            ..o
        }),
        ArgKind::DebugGcc => step_flag(pre, post, r) && post.options == (BuildOptions {
            gcc_build: (GCCBuild { debug_commands: true, ..gb }),
            ..o
        }),
        ArgKind::Unknown => post == pre && r == CliOutcome::Help,

        k => if is_llvm_kind_a1(k) {
            llvm_flag_rel_a1(k, pre, post, r)
        } else if is_llvm_kind_a2(k) {
            llvm_flag_rel_a2(k, pre, post, r)
        } else if is_llvm_kind_b1(k) {
            llvm_flag_rel_b1(k, pre, post, r)
        } else if is_llvm_kind_b2(k) {
            llvm_flag_rel_b2(k, pre, post, r)
        } else {
            gcc_flag_rel(k, pre, post, r)
        },
    }
}

/// The GCC-family flag kinds that take a value.
pub open spec fn is_gcc_kind(k: ArgKind) -> bool {
    ||| k is GccMajor
    ||| k is GccMinor
    ||| k is GccPatch
    ||| k is GccHostShared
    ||| k is GccCFlags
    ||| k is GccCppFlags
    ||| k is GccCCommand
    ||| k is GccCppCommand
}

/// One quarter of the flag kinds.
pub open spec fn is_llvm_kind_a1(k: ArgKind) -> bool {
    ||| k is LlvmMajor
    ||| k is LlvmMinor
    ||| k is LlvmPatch
    ||| k is LlvmCCompiler
    ||| k is LlvmCppCompiler
}

/// One quarter of the flag kinds.
pub open spec fn is_llvm_kind_a2(k: ArgKind) -> bool {
    ||| k is LlvmCppFlags
    ||| k is LlvmCFlags
    ||| k is LlvmReleaseType
    ||| k is LlvmShareLibs
    ||| k is LlvmX86Libs
}

/// One quarter of the flag kinds.
pub open spec fn is_llvm_kind_b1(k: ArgKind) -> bool {
    ||| k is LlvmDylib
    ||| k is LlvmStaticLinkLibcpp
    ||| k is LlvmUseLinker
    ||| k is LlvmLibc
    ||| k is LlvmPic
}

/// One quarter of the flag kinds.
pub open spec fn is_llvm_kind_b2(k: ArgKind) -> bool {
    ||| k is LlvmLibcpp
    ||| k is LlvmClangModules
    ||| k is LlvmPdb
    ||| k is LlvmOldToolchain
    ||| k is LlvmOptimizeTblgen
}

impl CommandLine {
    /// Applies one flag of the table.
    fn flag_llvm_major(&mut self, Ghost(arg): Ghost<Seq<char>>, kind: ArgKind) -> (r: CliOutcome)
        requires
            old(self).current < old(self).args@.len(),
            arg == old(self).args.deep_view()[old(self).current as int],
            kind == classify_spec(arg),
            kind is LlvmMajor,
        ensures
            llvm_flag_rel_a1(kind, *old(self), *final(self), r),
            final(self).args == old(self).args,
            r is Proceed ==> final(self).current > old(self).current && final(self).current
                <= final(self).args@.len(),
    {
                let value = match self.take_value() {
                    Ok(v) => v,
                    Err(o) => { return o },
                };
                let parsed = parse_u32_or(value.as_str(), 17);
                self.options.llvm_build.set_major(parsed);
                CliOutcome::Proceed
    }

    /// Applies one flag of the table.
    fn flag_llvm_minor(&mut self, Ghost(arg): Ghost<Seq<char>>, kind: ArgKind) -> (r: CliOutcome)
        requires
            old(self).current < old(self).args@.len(),
            arg == old(self).args.deep_view()[old(self).current as int],
            kind == classify_spec(arg),
            kind is LlvmMinor,
        ensures
            llvm_flag_rel_a1(kind, *old(self), *final(self), r),
            final(self).args == old(self).args,
            r is Proceed ==> final(self).current > old(self).current && final(self).current
                <= final(self).args@.len(),
    {
                let value = match self.take_value() {
                    Ok(v) => v,
                    Err(o) => { return o },
                };
                let parsed = parse_u32_or(value.as_str(), 0);
                self.options.llvm_build.set_minor(parsed);
                CliOutcome::Proceed
    }

    /// Applies one flag of the table.
    fn flag_llvm_patch(&mut self, Ghost(arg): Ghost<Seq<char>>, kind: ArgKind) -> (r: CliOutcome)
        requires
            old(self).current < old(self).args@.len(),
            arg == old(self).args.deep_view()[old(self).current as int],
            kind == classify_spec(arg),
            kind is LlvmPatch,
        ensures
            llvm_flag_rel_a1(kind, *old(self), *final(self), r),
            final(self).args == old(self).args,
            r is Proceed ==> final(self).current > old(self).current && final(self).current
                <= final(self).args@.len(),
    {
                let value = match self.take_value() {
                    Ok(v) => v,
                    Err(o) => { return o },
                };
                let parsed = parse_u32_or(value.as_str(), 0);
                self.options.llvm_build.set_patch(parsed);
                CliOutcome::Proceed
    }

    /// Applies one flag of the table.
    fn flag_llvm_c_compiler(&mut self, Ghost(arg): Ghost<Seq<char>>, kind: ArgKind) -> (r: CliOutcome)
        requires
            old(self).current < old(self).args@.len(),
            arg == old(self).args.deep_view()[old(self).current as int],
            kind == classify_spec(arg),
            kind is LlvmCCompiler,
        ensures
            llvm_flag_rel_a1(kind, *old(self), *final(self), r),
            final(self).args == old(self).args,
            r is Proceed ==> final(self).current > old(self).current && final(self).current
                <= final(self).args@.len(),
    {
                let value = match self.take_value() {
                    Ok(v) => v,
                    Err(o) => { return o },
                };
                self.options.llvm_build.set_c_compiler(value);
                CliOutcome::Proceed
    }

    /// Applies one flag of the table.
    fn flag_llvm_cpp_compiler(&mut self, Ghost(arg): Ghost<Seq<char>>, kind: ArgKind) -> (r: CliOutcome)
        requires
            old(self).current < old(self).args@.len(),
            arg == old(self).args.deep_view()[old(self).current as int],
            kind == classify_spec(arg),
            kind is LlvmCppCompiler,
        ensures
            llvm_flag_rel_a1(kind, *old(self), *final(self), r),
            final(self).args == old(self).args,
            r is Proceed ==> final(self).current > old(self).current && final(self).current
                <= final(self).args@.len(),
    {
                let value = match self.take_value() {
                    Ok(v) => v,
                    Err(o) => { return o },
                };
                self.options.llvm_build.set_cpp_compiler(value);
                CliOutcome::Proceed
    }

    /// Applies one flag of the table.
    fn flag_llvm_cpp_flags(&mut self, Ghost(arg): Ghost<Seq<char>>, kind: ArgKind) -> (r: CliOutcome)
        requires
            old(self).current < old(self).args@.len(),
            arg == old(self).args.deep_view()[old(self).current as int],
            kind == classify_spec(arg),
            kind is LlvmCppFlags,
        ensures
            llvm_flag_rel_a2(kind, *old(self), *final(self), r),
            final(self).args == old(self).args,
            r is Proceed ==> final(self).current > old(self).current && final(self).current
                <= final(self).args@.len(),
    {
                let value = match self.take_value() {
                    Ok(v) => v,
                    Err(o) => { return o },
                };
                self.options.llvm_build.set_cpp_flags(value);
                CliOutcome::Proceed
    }

    /// Applies one flag of the table.
    fn flag_llvm_c_flags(&mut self, Ghost(arg): Ghost<Seq<char>>, kind: ArgKind) -> (r: CliOutcome)
        requires
            old(self).current < old(self).args@.len(),
            arg == old(self).args.deep_view()[old(self).current as int],
            kind == classify_spec(arg),
            kind is LlvmCFlags,
        ensures
            llvm_flag_rel_a2(kind, *old(self), *final(self), r),
            final(self).args == old(self).args,
            r is Proceed ==> final(self).current > old(self).current && final(self).current
                <= final(self).args@.len(),
    {
                let value = match self.take_value() {
                    Ok(v) => v,
                    Err(o) => { return o },
                };
                self.options.llvm_build.set_c_flags(value);
                CliOutcome::Proceed
    }

    /// Applies one flag of the table.
    fn flag_llvm_release_type(&mut self, Ghost(arg): Ghost<Seq<char>>, kind: ArgKind) -> (r: CliOutcome)
        requires
            old(self).current < old(self).args@.len(),
            arg == old(self).args.deep_view()[old(self).current as int],
            kind == classify_spec(arg),
            kind is LlvmReleaseType,
        ensures
            llvm_flag_rel_a2(kind, *old(self), *final(self), r),
            final(self).args == old(self).args,
            r is Proceed ==> final(self).current > old(self).current && final(self).current
                <= final(self).args@.len(),
    {
                let value = match self.take_value() {
                    Ok(v) => v,
                    Err(o) => { return o },
                };
                let parsed = parse_release_type(value.as_str());
                self.options.llvm_build.set_release_type(parsed);
                CliOutcome::Proceed
    }

    /// Applies one flag of the table.
    fn flag_llvm_share_libs(&mut self, Ghost(arg): Ghost<Seq<char>>, kind: ArgKind) -> (r: CliOutcome)
        requires
            old(self).current < old(self).args@.len(),
            arg == old(self).args.deep_view()[old(self).current as int],
            kind == classify_spec(arg),
            kind is LlvmShareLibs,
        ensures
            llvm_flag_rel_a2(kind, *old(self), *final(self), r),
            final(self).args == old(self).args,
            r is Proceed ==> final(self).current > old(self).current && final(self).current
                <= final(self).args@.len(),
    {
                let value = match self.take_value() {
                    Ok(v) => v,
                    Err(o) => { return o },
                };
                let parsed = parse_bool_or(value.as_str(), true);
                self.options.llvm_build.set_build_share_libs(parsed);
                CliOutcome::Proceed
    }

    /// Applies one flag of the table.
    fn flag_llvm_x86_libs(&mut self, Ghost(arg): Ghost<Seq<char>>, kind: ArgKind) -> (r: CliOutcome)
        requires
            old(self).current < old(self).args@.len(),
            arg == old(self).args.deep_view()[old(self).current as int],
            kind == classify_spec(arg),
            kind is LlvmX86Libs,
        ensures
            llvm_flag_rel_a2(kind, *old(self), *final(self), r),
            final(self).args == old(self).args,
            r is Proceed ==> final(self).current > old(self).current && final(self).current
                <= final(self).args@.len(),
    {
                let value = match self.take_value() {
                    Ok(v) => v,
                    Err(o) => { return o },
                };
                let parsed = parse_bool_or(value.as_str(), true);
                self.options.llvm_build.set_x86_libs(parsed);
                CliOutcome::Proceed
    }

    /// Applies one flag of the table.
    fn flag_llvm_dylib(&mut self, Ghost(arg): Ghost<Seq<char>>, kind: ArgKind) -> (r: CliOutcome)
        requires
            old(self).current < old(self).args@.len(),
            arg == old(self).args.deep_view()[old(self).current as int],
            kind == classify_spec(arg),
            kind is LlvmDylib,
        ensures
            llvm_flag_rel_b1(kind, *old(self), *final(self), r),
            final(self).args == old(self).args,
            r is Proceed ==> final(self).current > old(self).current && final(self).current
                <= final(self).args@.len(),
    {
                let value = match self.take_value() {
                    Ok(v) => v,
                    Err(o) => { return o },
                };
                let parsed = parse_bool_or(value.as_str(), true);
                self.options.llvm_build.set_dylib(parsed);
                CliOutcome::Proceed
    }

    /// Applies one flag of the table.
    fn flag_llvm_static_link_libcpp(&mut self, Ghost(arg): Ghost<Seq<char>>, kind: ArgKind) -> (r: CliOutcome)
        requires
            old(self).current < old(self).args@.len(),
            arg == old(self).args.deep_view()[old(self).current as int],
            kind == classify_spec(arg),
            kind is LlvmStaticLinkLibcpp,
        ensures
            llvm_flag_rel_b1(kind, *old(self), *final(self), r),
            final(self).args == old(self).args,
            r is Proceed ==> final(self).current > old(self).current && final(self).current
                <= final(self).args@.len(),
    {
                let value = match self.take_value() {
                    Ok(v) => v,
                    Err(o) => { return o },
                };
                let parsed = parse_bool_or(value.as_str(), true);
                self.options.llvm_build.set_static_link_libcpp(parsed);
                CliOutcome::Proceed
    }

    /// Applies one flag of the table.
    fn flag_llvm_use_linker(&mut self, Ghost(arg): Ghost<Seq<char>>, kind: ArgKind) -> (r: CliOutcome)
        requires
            old(self).current < old(self).args@.len(),
            arg == old(self).args.deep_view()[old(self).current as int],
            kind == classify_spec(arg),
            kind is LlvmUseLinker,
        ensures
            llvm_flag_rel_b1(kind, *old(self), *final(self), r),
            final(self).args == old(self).args,
            r is Proceed ==> final(self).current > old(self).current && final(self).current
                <= final(self).args@.len(),
    {
                let value = match self.take_value() {
                    Ok(v) => v,
                    Err(o) => { return o },
                };
                self.options.llvm_build.set_linker(value);
                CliOutcome::Proceed
    }

    /// Applies one flag of the table.
    fn flag_llvm_libc(&mut self, Ghost(arg): Ghost<Seq<char>>, kind: ArgKind) -> (r: CliOutcome)
        requires
            old(self).current < old(self).args@.len(),
            arg == old(self).args.deep_view()[old(self).current as int],
            kind == classify_spec(arg),
            kind is LlvmLibc,
        ensures
            llvm_flag_rel_b1(kind, *old(self), *final(self), r),
            final(self).args == old(self).args,
            r is Proceed ==> final(self).current > old(self).current && final(self).current
                <= final(self).args@.len(),
    {
                let value = match self.take_value() {
                    Ok(v) => v,
                    Err(o) => { return o },
                };
                let parsed = parse_bool_or(value.as_str(), false);
                self.options.llvm_build.set_llvm_libc(parsed);
                CliOutcome::Proceed
    }

    /// Applies one flag of the table.
    fn flag_llvm_pic(&mut self, Ghost(arg): Ghost<Seq<char>>, kind: ArgKind) -> (r: CliOutcome)
        requires
            old(self).current < old(self).args@.len(),
            arg == old(self).args.deep_view()[old(self).current as int],
            kind == classify_spec(arg),
            kind is LlvmPic,
        ensures
            llvm_flag_rel_b1(kind, *old(self), *final(self), r),
            final(self).args == old(self).args,
            r is Proceed ==> final(self).current > old(self).current && final(self).current
                <= final(self).args@.len(),
    {
                let value = match self.take_value() {
                    Ok(v) => v,
                    Err(o) => { return o },
                };
                let parsed = parse_bool_or(value.as_str(), true);
                self.options.llvm_build.set_enable_pic(parsed);
                CliOutcome::Proceed
    }

    /// Applies one flag of the table.
    fn flag_llvm_libcpp(&mut self, Ghost(arg): Ghost<Seq<char>>, kind: ArgKind) -> (r: CliOutcome)
        requires
            old(self).current < old(self).args@.len(),
            arg == old(self).args.deep_view()[old(self).current as int],
            kind == classify_spec(arg),
            kind is LlvmLibcpp,
        ensures
            llvm_flag_rel_b2(kind, *old(self), *final(self), r),
            final(self).args == old(self).args,
            r is Proceed ==> final(self).current > old(self).current && final(self).current
                <= final(self).args@.len(),
    {
                let value = match self.take_value() {
                    Ok(v) => v,
                    Err(o) => { return o },
                };
                let parsed = parse_bool_or(value.as_str(), false);
                self.options.llvm_build.set_enable_libcpp(parsed);
                CliOutcome::Proceed
    }

    /// Applies one flag of the table.
    fn flag_llvm_clang_modules(&mut self, Ghost(arg): Ghost<Seq<char>>, kind: ArgKind) -> (r: CliOutcome)
        requires
            old(self).current < old(self).args@.len(),
            arg == old(self).args.deep_view()[old(self).current as int],
            kind == classify_spec(arg),
            kind is LlvmClangModules,
        ensures
            llvm_flag_rel_b2(kind, *old(self), *final(self), r),
            final(self).args == old(self).args,
            r is Proceed ==> final(self).current > old(self).current && final(self).current
                <= final(self).args@.len(),
    {
                let value = match self.take_value() {
                    Ok(v) => v,
                    Err(o) => { return o },
                };
                let parsed = parse_bool_or(value.as_str(), false);
                self.options.llvm_build.set_enable_clang_modules(parsed);
                CliOutcome::Proceed
    }

    /// Applies one flag of the table.
    fn flag_llvm_pdb(&mut self, Ghost(arg): Ghost<Seq<char>>, kind: ArgKind) -> (r: CliOutcome)
        requires
            old(self).current < old(self).args@.len(),
            arg == old(self).args.deep_view()[old(self).current as int],
            kind == classify_spec(arg),
            kind is LlvmPdb,
        ensures
            llvm_flag_rel_b2(kind, *old(self), *final(self), r),
            final(self).args == old(self).args,
            r is Proceed ==> final(self).current > old(self).current && final(self).current
                <= final(self).args@.len(),
    {
                let value = match self.take_value() {
                    Ok(v) => v,
                    Err(o) => { return o },
                };
                let parsed = parse_bool_or(value.as_str(), false);
                self.options.llvm_build.set_enable_pdb(parsed);
                CliOutcome::Proceed
    }

    /// Applies one flag of the table.
    fn flag_llvm_old_toolchain(&mut self, Ghost(arg): Ghost<Seq<char>>, kind: ArgKind) -> (r: CliOutcome)
        requires
            old(self).current < old(self).args@.len(),
            arg == old(self).args.deep_view()[old(self).current as int],
            kind == classify_spec(arg),
            kind is LlvmOldToolchain,
        ensures
            llvm_flag_rel_b2(kind, *old(self), *final(self), r),
            final(self).args == old(self).args,
            r is Proceed ==> final(self).current > old(self).current && final(self).current
                <= final(self).args@.len(),
    {
                let value = match self.take_value() {
                    Ok(v) => v,
                    Err(o) => { return o },
                };
                let parsed = parse_bool_or(value.as_str(), false);
                self.options.llvm_build.set_temporarily_allow_old_toolchain(parsed);
                CliOutcome::Proceed
    }

    /// Applies one flag of the table.
    fn flag_llvm_optimize_tblgen(&mut self, Ghost(arg): Ghost<Seq<char>>, kind: ArgKind) -> (r: CliOutcome)
        requires
            old(self).current < old(self).args@.len(),
            arg == old(self).args.deep_view()[old(self).current as int],
            kind == classify_spec(arg),
            kind is LlvmOptimizeTblgen,
        ensures
            llvm_flag_rel_b2(kind, *old(self), *final(self), r),
            final(self).args == old(self).args,
            r is Proceed ==> final(self).current > old(self).current && final(self).current
                <= final(self).args@.len(),
    {
                let value = match self.take_value() {
                    Ok(v) => v,
                    Err(o) => { return o },
                };
                let parsed = parse_bool_or(value.as_str(), false);
                self.options.llvm_build.set_optimize_tblgen(parsed);
                CliOutcome::Proceed
    }


    /// Applies one value-taking flag of the GCC-family table.
    #[verifier::rlimit(100)]
    fn apply_gcc(&mut self, Ghost(arg): Ghost<Seq<char>>, kind: ArgKind) -> (r: CliOutcome)
        requires
            old(self).current < old(self).args@.len(),
            arg == old(self).args.deep_view()[old(self).current as int],
            kind == classify_spec(arg),
            is_gcc_kind(kind),
        ensures
            gcc_flag_rel(kind, *old(self), *final(self), r),
            final(self).args == old(self).args,
            r is Proceed ==> final(self).current > old(self).current && final(self).current
                <= final(self).args@.len(),
    {
        match kind {
            ArgKind::GccMajor => {
                let value = match self.take_value() {
                    Ok(v) => v,
                    Err(o) => { return o },
                };
                let parsed = parse_u32_or(value.as_str(), 15);
                self.options.gcc_build.set_major(parsed);
                CliOutcome::Proceed
            },
            ArgKind::GccMinor => {
                let value = match self.take_value() {
                    Ok(v) => v,
                    Err(o) => { return o },
                };
                let parsed = parse_u32_or(value.as_str(), 2);
                self.options.gcc_build.set_minor(parsed);
                CliOutcome::Proceed
            },
            ArgKind::GccPatch => {
                let value = match self.take_value() {
                    Ok(v) => v,
                    Err(o) => { return o },
                };
                let parsed = parse_u32_or(value.as_str(), 0);
                self.options.gcc_build.set_patch(parsed);
                CliOutcome::Proceed
            },
            ArgKind::GccHostShared => {
                let value = match self.take_value() {
                    Ok(v) => v,
                    Err(o) => { return o },
                };
                let parsed = parse_bool_or(value.as_str(), true);
                self.options.gcc_build.set_host_shared(parsed);
                CliOutcome::Proceed
            },
            ArgKind::GccCFlags => {
                let value = match self.take_value() {
                    Ok(v) => v,
                    Err(o) => { return o },
                };
                self.options.gcc_build.set_c_compiler_flags(value);
                CliOutcome::Proceed
            },
            ArgKind::GccCppFlags => {
                let value = match self.take_value() {
                    Ok(v) => v,
                    Err(o) => { return o },
                };
                self.options.gcc_build.set_cpp_compiler_flags(value);
                CliOutcome::Proceed
            },
            ArgKind::GccCCommand => {
                let value = match self.take_value() {
                    Ok(v) => v,
                    Err(o) => { return o },
                };
                self.options.gcc_build.set_c_compiler_command(value);
                CliOutcome::Proceed
            },
            ArgKind::GccCppCommand => {
                let value = match self.take_value() {
                    Ok(v) => v,
                    Err(o) => { return o },
                };
                self.options.gcc_build.set_cpp_compiler_command(value);
                CliOutcome::Proceed
            },
            _ => CliOutcome::Help,
        }
    }

    /// One scanning step: dispatches on the argument under the cursor per
    /// the flag table.
    #[verifier::rlimit(100)]
    fn analyze(&mut self, argument: String) -> (r: CliOutcome)
        requires
            old(self).current < old(self).args@.len(),
            argument@ == old(self).args.deep_view()[old(self).current as int],
        ensures
            analyze_rel(*old(self), *final(self), r),
            final(self).args == old(self).args,
            r is Proceed ==> final(self).current > old(self).current && final(self).current
                <= final(self).args@.len(),
    {
        let kind = classify(argument.as_str());
        let ghost arg = argument@;
        match kind {
            ArgKind::Help => {
                let _ = self.advance();
                CliOutcome::Help
            },
            ArgKind::Version => {
                let _ = self.advance();
                CliOutcome::Version
            },
            ArgKind::Gcc => {
                let _ = self.advance();
                self.options.set_build_gcc_backend(true);
                CliOutcome::Proceed
            },
            ArgKind::DebugLlvm => {
                let _ = self.advance();
                self.options.llvm_build.set_debug_commands(true);
                CliOutcome::Proceed
            },
            ArgKind::DebugGcc => {
                let _ = self.advance();
                self.options.gcc_build.set_debug_commands(true);
                CliOutcome::Proceed
            },
            ArgKind::Unknown => CliOutcome::Help,
            ArgKind::LlvmMajor => self.flag_llvm_major(Ghost(arg), kind),
            ArgKind::LlvmMinor => self.flag_llvm_minor(Ghost(arg), kind),
            ArgKind::LlvmPatch => self.flag_llvm_patch(Ghost(arg), kind),
            ArgKind::LlvmCCompiler => self.flag_llvm_c_compiler(Ghost(arg), kind),
            ArgKind::LlvmCppCompiler => self.flag_llvm_cpp_compiler(Ghost(arg), kind),
            ArgKind::LlvmCppFlags => self.flag_llvm_cpp_flags(Ghost(arg), kind),
            ArgKind::LlvmCFlags => self.flag_llvm_c_flags(Ghost(arg), kind),
            ArgKind::LlvmReleaseType => self.flag_llvm_release_type(Ghost(arg), kind),
            ArgKind::LlvmShareLibs => self.flag_llvm_share_libs(Ghost(arg), kind),
            ArgKind::LlvmX86Libs => self.flag_llvm_x86_libs(Ghost(arg), kind),
            ArgKind::LlvmDylib => self.flag_llvm_dylib(Ghost(arg), kind),
            ArgKind::LlvmStaticLinkLibcpp => self.flag_llvm_static_link_libcpp(Ghost(arg), kind),
            ArgKind::LlvmUseLinker => self.flag_llvm_use_linker(Ghost(arg), kind),
            ArgKind::LlvmLibc => self.flag_llvm_libc(Ghost(arg), kind),
            ArgKind::LlvmPic => self.flag_llvm_pic(Ghost(arg), kind),
            ArgKind::LlvmLibcpp => self.flag_llvm_libcpp(Ghost(arg), kind),
            ArgKind::LlvmClangModules => self.flag_llvm_clang_modules(Ghost(arg), kind),
            ArgKind::LlvmPdb => self.flag_llvm_pdb(Ghost(arg), kind),
            ArgKind::LlvmOldToolchain => self.flag_llvm_old_toolchain(Ghost(arg), kind),
            ArgKind::LlvmOptimizeTblgen => self.flag_llvm_optimize_tblgen(Ghost(arg), kind),
            _ => self.apply_gcc(Ghost(arg), kind),
        }
    }

    /// Scans every argument in turn; stops early when a flag asks for help,
    /// the version, or came without its value.
    fn build(&mut self) -> (r: CliOutcome)
        ensures
            final(self).args == old(self).args,
            old(self).current <= old(self).args@.len() ==> scan_rel(*old(self), *final(self), r),
            r is Proceed ==> final(self).current >= final(self).args@.len(),
        decreases self.args@.len() - self.current,
    {
        if self.is_eof() {
            return CliOutcome::Proceed;
        }
        let argument = self.args[self.current].clone();
        proof {
            assert(self.args.deep_view()[self.current as int] == self.args@[self.current as int]@);
        }
        let outcome = self.analyze(argument);
        if !matches!(outcome, CliOutcome::Proceed) {
            proof {
                assert(scan_rel(*old(self), *self, outcome));
            }
            return outcome;
        }
        let ghost mid = *self;
        let r = self.build();
        proof {
            lemma_scan_step(*old(self), mid, *final(self), r);
        }
        r
    }

    /// Parses a raw argument vector, program name first. The result is the
    /// whole scan, fixed by contract: some command line with the default
    /// configuration and the scanned arguments relates to the result by the
    /// flag-table fold, followed — on `Proceed` — by URL recomputation. On
    /// `Proceed` every argument was consumed and the derived URLs agree
    /// with the version fields as parsed; any other outcome says why the
    /// run must stop before the pipeline.
    pub fn parse(args: Vec<String>) -> (r: (CommandLine, CliOutcome))
        ensures
            r.0.args.deep_view() == (if args@.len() == 0 {
                Seq::<Seq<char>>::empty()
            } else {
                preprocess_spec(args.deep_view().subrange(1, args@.len() as int))
            }),
            exists|init: CommandLine, scanned: CommandLine|
                {
                    &&& is_default_build_options(init.options)
                    &&& init.current == 0
                    &&& init.args == r.0.args
                    &&& #[trigger] scan_rel(init, scanned, r.1)
                    &&& if r.1 is Proceed {
                        prepare_rel(scanned, r.0)
                    } else {
                        r.0 == scanned
                    }
                },
            r.1 is Proceed ==> r.0.current >= r.0.args@.len()
                && r.0.options.llvm_build.url@ == llvm_url_chars(
                r.0.options.llvm_build.major,
                r.0.options.llvm_build.minor,
                r.0.options.llvm_build.patch,
            ) && (r.0.options.build_gcc_backend ==> r.0.options.gcc_build.url@ == gcc_url_chars(
                r.0.options.gcc_build.major,
                r.0.options.gcc_build.minor,
                r.0.options.gcc_build.patch,
            )),
    {
        let mut raw = args;
        let processed = Self::preprocess_args(&mut raw);
        let mut command_line = CommandLine {
            options: BuildOptions::new(),
            args: processed,
            current: 0,
        };
        let ghost init = command_line;
        let outcome = command_line.build();
        let ghost scanned = command_line;
        if matches!(outcome, CliOutcome::Proceed) {
            command_line.prepare();
        }
        proof {
            assert(scan_rel(init, scanned, outcome));
        }
        (command_line, outcome)
    }
}

/// One consumed flag extends a scan: a step of the flag table followed by
/// a whole scan is a whole scan.
proof fn lemma_scan_step(pre: CommandLine, mid: CommandLine, post: CommandLine, r: CliOutcome)
    requires
        pre.current < pre.args@.len(),
        analyze_rel(pre, mid, CliOutcome::Proceed),
        mid.args == pre.args,
        pre.current < mid.current <= pre.args@.len(),
        scan_rel(mid, post, r),
    ensures
        scan_rel(pre, post, r),
{
}

/// One whole scan of the argument list: zero or more flags consumed by the
/// step relation, ending either with every argument consumed (`Proceed`)
/// or with the one step that stopped the scan.
pub open spec fn scan_rel(pre: CommandLine, post: CommandLine, r: CliOutcome) -> bool
    decreases pre.args@.len() - pre.current,
{
    if pre.current >= pre.args@.len() {
        post == pre && r == CliOutcome::Proceed
    } else {
        ||| (analyze_rel(pre, post, r) && !(r is Proceed))
        ||| (exists|mid: CommandLine|
            #[trigger] analyze_rel(pre, mid, CliOutcome::Proceed) && mid.args == pre.args
                && pre.current < mid.current <= pre.args@.len() && scan_rel(mid, post, r))
    }
}

/// The error lines reported for missing external tools, ending with the
/// line that stops the run.
pub open spec fn requirement_errors(tar: bool, cmake: bool, ninja: bool) -> Seq<Seq<char>> {
    (if !tar {
        seq!["tar is not installed.\n"@]
    } else {
        Seq::<Seq<char>>::empty()
    }) + (if !cmake {
        seq!["cmake is not installed.\n"@]
    } else {
        Seq::<Seq<char>>::empty()
    }) + (if !ninja {
        seq!["ninja is not installed.\n"@]
    } else {
        Seq::<Seq<char>>::empty()
    }) + seq!["Requirements aren't ok!\n\n"@]
}

/// What URL recomputation does to a parsed command line: every field but
/// the URLs is kept, the URLs agree with the version fields as they stood,
/// and the secondary backend's URL is touched only when it is requested.
pub open spec fn prepare_rel(pre: CommandLine, post: CommandLine) -> bool {
    &&& post.args == pre.args
    &&& post.current == pre.current
    &&& post.options.llvm_build == (LLVMBuild {
        url: post.options.llvm_build.url,
        ..pre.options.llvm_build
    })
    &&& post.options.llvm_build.url@ == llvm_url_chars(
        pre.options.llvm_build.major,
        pre.options.llvm_build.minor,
        pre.options.llvm_build.patch,
    )
    &&& (pre.options.build_gcc_backend ==> (post.options.gcc_build == (GCCBuild {
        url: post.options.gcc_build.url,
        ..pre.options.gcc_build
    }) && post.options.gcc_build.url@ == gcc_url_chars(
        pre.options.gcc_build.major,
        pre.options.gcc_build.minor,
        pre.options.gcc_build.patch,
    )))
    &&& (!pre.options.build_gcc_backend ==> post.options.gcc_build == pre.options.gcc_build)
    &&& post.options == (BuildOptions {
        llvm_build: post.options.llvm_build,
        gcc_build: post.options.gcc_build,
        ..pre.options
    })
}

impl CommandLine {
    /// Judges the tool probes the caller ran: all three external tools must
    /// be available, and every missing one is named before the run stops.
    pub fn check_requirements(&self, tar_available: bool, cmake_available: bool, ninja_available: bool) -> (r:
        Result<(), Vec<String>>)
        ensures
            r is Ok <==> (tar_available && cmake_available && ninja_available),
            !(tar_available && cmake_available && ninja_available) ==> (r matches Err(msgs)
                && msgs.deep_view() == requirement_errors(
                tar_available,
                cmake_available,
                ninja_available,
            )),
    {
        if tar_available && cmake_available && ninja_available {
            return Ok(());
        }
        let mut msgs: Vec<String> = Vec::new();
        proof {
            assert(msgs.deep_view() =~= Seq::<Seq<char>>::empty());
        }
        push_arg_if(&mut msgs, !tar_available, "tar is not installed.\n".to_owned());
        proof {
            assert(Seq::<Seq<char>>::empty() + (if !tar_available {
                seq!["tar is not installed.\n"@]
            } else {
                Seq::<Seq<char>>::empty()
            }) =~= (if !tar_available {
                seq!["tar is not installed.\n"@]
            } else {
                Seq::<Seq<char>>::empty()
            }));
        }
        push_arg_if(&mut msgs, !cmake_available, "cmake is not installed.\n".to_owned());
        push_arg_if(&mut msgs, !ninja_available, "ninja is not installed.\n".to_owned());
        push_arg(&mut msgs, "Requirements aren't ok!\n\n".to_owned());
        Err(msgs)
    }

    /// Recomputes every derived URL from the version fields as they now
    /// stand: the primary backend always, the secondary one when requested.
    pub fn prepare(&mut self)
        ensures
            prepare_rel(*old(self), *final(self)),
    {
        self.options.llvm_build.setup_all();
        if self.options.get_build_gcc_backend() {
            self.options.gcc_build.setup_all();
        }
    }
}

} // verus!
