//! The full build configuration: one option model per backend, plus the
//! switches saying which optional backends run at all.

use vstd::prelude::*;

use crate::clang::LibClang;
use crate::gcc::is_default_gcc_build;
use crate::gcc::GCCBuild;
use crate::llvm::is_default_llvm_build;
use crate::llvm::LLVMBuild;

verus! {

#[derive(Debug)]
pub struct BuildOptions {
    pub llvm_build: LLVMBuild,
    pub cbindgen_build: LibClang,
    pub gcc_build: GCCBuild,
    pub build_gcc_backend: bool,
    pub build_cbindgen: bool,
}

/// The documented construction state: both backend configurations hold
/// their defaults and no optional backend is requested.
pub open spec fn is_default_build_options(o: BuildOptions) -> bool {
    &&& is_default_llvm_build(o.llvm_build)
    &&& is_default_gcc_build(o.gcc_build)
    &&& !o.cbindgen_build.debug_commands
    &&& !o.build_gcc_backend
    &&& !o.build_cbindgen
}

impl BuildOptions {
    /// Defaults: only the primary backend is requested.
    pub fn new() -> (r: BuildOptions)
        ensures
            is_default_build_options(r),
    {
        BuildOptions {
            llvm_build: LLVMBuild::new(),
            cbindgen_build: LibClang::new(),
            gcc_build: GCCBuild::new(),
            build_gcc_backend: false,
            build_cbindgen: false,
        }
    }
}

impl BuildOptions {
    pub fn set_build_gcc_backend(&mut self, build_gcc_backend: bool)
        ensures
            *final(self) == (BuildOptions { build_gcc_backend, ..*old(self) }),
    {
        self.build_gcc_backend = build_gcc_backend;
    }

    pub fn set_build_cbindgen(&mut self, build_cbindgen: bool)
        ensures
            *final(self) == (BuildOptions { build_cbindgen, ..*old(self) }),
    {
        self.build_cbindgen = build_cbindgen;
    }
}

impl BuildOptions {
    pub fn get_llvm_build(&self) -> (r: &LLVMBuild)
        ensures
            *r == self.llvm_build,
    {
        &self.llvm_build
    }

    pub fn get_gcc_build(&self) -> (r: &GCCBuild)
        ensures
            *r == self.gcc_build,
    {
        &self.gcc_build
    }

    pub fn get_cbindgen_build(&self) -> (r: &LibClang)
        ensures
            *r == self.cbindgen_build,
    {
        &self.cbindgen_build
    }
}

impl BuildOptions {
    pub fn get_build_gcc_backend(&self) -> (r: bool)
        ensures
            r == self.build_gcc_backend,
    {
        self.build_gcc_backend
    }

    pub fn get_build_cbindgen(&self) -> (r: bool)
        ensures
            r == self.build_cbindgen,
    {
        self.build_cbindgen
    }
}

impl BuildOptions {
    pub fn get_mut_llvm_build(&mut self) -> (r: &mut LLVMBuild)
        ensures
            *r == old(self).llvm_build,
            *final(self) == (BuildOptions { llvm_build: *final (r), ..*old(self) }),
    {
        &mut self.llvm_build
    }

    pub fn get_mut_gcc_build(&mut self) -> (r: &mut GCCBuild)
        ensures
            *r == old(self).gcc_build,
            *final(self) == (BuildOptions { gcc_build: *final (r), ..*old(self) }),
    {
        &mut self.gcc_build
    }

    pub fn get_mut_cbindgen_build(&mut self) -> (r: &mut LibClang)
        ensures
            *r == old(self).cbindgen_build,
            *final(self) == (BuildOptions { cbindgen_build: *final (r), ..*old(self) }),
    {
        &mut self.cbindgen_build
    }
}

} // verus!
