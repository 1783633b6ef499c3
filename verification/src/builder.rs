//! The top-level coordinator: which backend pipelines run, and in what
//! order.
//!
//! The primary (LLVM-family) pipeline always runs; the secondary
//! (GCC-family) pipeline runs only when requested, and strictly after the
//! primary has completed — never concurrently. The plan compiled here is
//! the whole of what the embedding program executes: a backend absent from
//! the plan has no pipeline, and no subprocess, attributable to it.

use vstd::prelude::*;

use crate::options::BuildOptions;

verus! {

/// One of the two third-party toolchains this system can build.
#[derive(Debug, Clone, Copy, PartialEq, Eq, Structural)]
pub enum Backend {
    Llvm,
    Gcc,
}

/// The ordered list of backend pipelines a configuration asks for.
pub open spec fn build_plan_spec(build_gcc_backend: bool) -> Seq<Backend> {
    if build_gcc_backend {
        seq![Backend::Llvm, Backend::Gcc]
    } else {
        seq![Backend::Llvm]
    }
}

/// When the secondary backend is not requested, no entry of the plan
/// belongs to it: the primary pipeline is the whole plan. When it is
/// requested, it comes strictly after the primary.
pub proof fn lemma_secondary_only_when_requested(build_gcc_backend: bool)
    ensures
        !build_gcc_backend ==> forall|i: int|
            0 <= i < build_plan_spec(build_gcc_backend).len() ==> build_plan_spec(
                build_gcc_backend,
            )[i] != Backend::Gcc,
        build_plan_spec(build_gcc_backend)[0] == Backend::Llvm,
        build_plan_spec(build_gcc_backend).len() == (if build_gcc_backend {
            2int
        } else {
            1int
        }),
{
}

#[derive(Debug)]
pub struct CompilerBuilderDependencies<'a> {
    pub options: &'a BuildOptions,
}

impl<'a> CompilerBuilderDependencies<'a> {
    pub fn new(options: &'a BuildOptions) -> (r: Self)
        ensures
            *r.options == *options,
    {
        Self { options }
    }
}

impl<'a> CompilerBuilderDependencies<'a> {
    /// Compiles the build plan: the primary backend, then the secondary one
    /// exactly when the options request it.
    pub fn build(&self) -> (plan: Vec<Backend>)
        ensures
            plan@ == build_plan_spec(self.options.build_gcc_backend),
    {
        let mut plan: Vec<Backend> = Vec::new();
        plan.push(Backend::Llvm);
        if self.options.get_build_gcc_backend() {
            plan.push(Backend::Gcc);
        }
        proof {
            assert(plan@ =~= build_plan_spec(self.options.build_gcc_backend));
        }
        plan
    }
}

impl CompilerBuilderDependencies<'_> {
    pub fn get_options(&self) -> (r: &BuildOptions)
        ensures
            *r == *self.options,
    {
        self.options
    }
}

} // verus!
