//! The closed set of host target triples the LLVM-family backend supports.

use vstd::prelude::*;

use crate::utils::str_eq;

verus! {

#[derive(Debug, Clone, Copy, PartialEq, Eq, Structural)]
pub enum LLVMBackendHostTarget {
    WindowsGNU,
    WindowsLIBCMT,
    WindowsMSVC,
    LinuxGNU,
    LinuxMusl,
}

/// The triple each host target renders as.
pub open spec fn triple_chars(t: LLVMBackendHostTarget) -> Seq<char> {
    match t {
        LLVMBackendHostTarget::WindowsGNU => "x86_64-pc-windows-gnu"@,
        LLVMBackendHostTarget::WindowsLIBCMT => "x86_64-pc-windows-libcmt"@,
        LLVMBackendHostTarget::WindowsMSVC => "x86_64-pc-windows-msvc"@,
        LLVMBackendHostTarget::LinuxGNU => "x86_64-unknown-linux-gnu"@,
        LLVMBackendHostTarget::LinuxMusl => "x86_64-unknown-linux-musl"@,
    }
}

impl LLVMBackendHostTarget {
    pub fn get_triple(&self) -> (r: &'static str)
        ensures
            r@ == triple_chars(*self),
    {
        match self {
            LLVMBackendHostTarget::WindowsGNU => "x86_64-pc-windows-gnu",
            LLVMBackendHostTarget::WindowsLIBCMT => "x86_64-pc-windows-libcmt",
            LLVMBackendHostTarget::WindowsMSVC => "x86_64-pc-windows-msvc",
            LLVMBackendHostTarget::LinuxGNU => "x86_64-unknown-linux-gnu",
            LLVMBackendHostTarget::LinuxMusl => "x86_64-unknown-linux-musl",
        }
    }
}

impl LLVMBackendHostTarget {
    pub fn is_windows_gnu(&self) -> (r: bool)
        ensures
            r == (*self is WindowsGNU),
    {
        matches!(self, LLVMBackendHostTarget::WindowsGNU)
    }

    pub fn is_windows_libcmt(&self) -> (r: bool)
        ensures
            r == (*self is WindowsLIBCMT),
    {
        matches!(self, LLVMBackendHostTarget::WindowsLIBCMT)
    }

    pub fn is_windows_msvc(&self) -> (r: bool)
        ensures
            r == (*self is WindowsMSVC),
    {
        matches!(self, LLVMBackendHostTarget::WindowsMSVC)
    }

    pub fn is_linux_gnu(&self) -> (r: bool)
        ensures
            r == (*self is LinuxGNU),
    {
        matches!(self, LLVMBackendHostTarget::LinuxGNU)
    }

    pub fn is_linux_musl(&self) -> (r: bool)
        ensures
            r == (*self is LinuxMusl),
    {
        matches!(self, LLVMBackendHostTarget::LinuxMusl)
    }
}

/// The host target a triple names, if it names one at all.
pub open spec fn parse_llvm_triple_spec(triple: Seq<char>) -> Option<LLVMBackendHostTarget> {
    if triple == "x86_64-pc-windows-gnu"@ {
        Some(LLVMBackendHostTarget::WindowsGNU)
    } else if triple == "x86_64-pc-windows-libcmt"@ {
        Some(LLVMBackendHostTarget::WindowsLIBCMT)
    } else if triple == "x86_64-pc-windows-msvc"@ {
        Some(LLVMBackendHostTarget::WindowsMSVC)
    } else if triple == "x86_64-unknown-linux-gnu"@ {
        Some(LLVMBackendHostTarget::LinuxGNU)
    } else if triple == "x86_64-unknown-linux-musl"@ {
        Some(LLVMBackendHostTarget::LinuxMusl)
    } else {
        None
    }
}

/// Parses a triple; `None` exactly when the triple is not supported.
pub fn parse_llvm_triple(triple: &str) -> (r: Option<LLVMBackendHostTarget>)
    ensures
        r == parse_llvm_triple_spec(triple@),
{
    if str_eq(triple, "x86_64-pc-windows-gnu") {
        Some(LLVMBackendHostTarget::WindowsGNU)
    } else if str_eq(triple, "x86_64-pc-windows-libcmt") {
        Some(LLVMBackendHostTarget::WindowsLIBCMT)
    } else if str_eq(triple, "x86_64-pc-windows-msvc") {
        Some(LLVMBackendHostTarget::WindowsMSVC)
    } else if str_eq(triple, "x86_64-unknown-linux-gnu") {
        Some(LLVMBackendHostTarget::LinuxGNU)
    } else if str_eq(triple, "x86_64-unknown-linux-musl") {
        Some(LLVMBackendHostTarget::LinuxMusl)
    } else {
        None
    }
}

/// Rendering a host target and parsing it back yields the same target: the
/// closed set of triples round-trips.
pub proof fn lemma_triple_round_trip(t: LLVMBackendHostTarget)
    ensures
        parse_llvm_triple_spec(triple_chars(t)) == Some(t),
{
    reveal_strlit("x86_64-pc-windows-gnu");
    reveal_strlit("x86_64-pc-windows-libcmt");
    reveal_strlit("x86_64-pc-windows-msvc");
    reveal_strlit("x86_64-unknown-linux-gnu");
    reveal_strlit("x86_64-unknown-linux-musl");
    assert("x86_64-pc-windows-gnu"@.len() == 21);
    assert("x86_64-pc-windows-libcmt"@.len() == 24);
    assert("x86_64-pc-windows-msvc"@.len() == 22);
    assert("x86_64-unknown-linux-gnu"@.len() == 24);
    assert("x86_64-unknown-linux-musl"@.len() == 25);
    assert("x86_64-pc-windows-libcmt"@[7] == 'p');
    assert("x86_64-unknown-linux-gnu"@[7] == 'u');
}

} // verus!
