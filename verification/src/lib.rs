//! Orchestration core for building third-party compiler toolchains: a typed
//! option model per backend, pure flag compilers that turn options into native
//! build-tool command lines, and a fail-safe staged pipeline with cleanup.

pub mod builder;
pub mod clang;
pub mod cli;
pub mod cmd;
pub mod decimal;
pub mod fetch;
pub mod gcc;
pub mod llvm;
pub mod logging;
pub mod options;
pub mod pipeline;
pub mod targets;
pub mod utils;

use vstd::prelude::*;

verus! {

} // verus!
