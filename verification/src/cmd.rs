//! Helpers for building subprocess argument vectors.
//!
//! The orchestrator never spawns processes itself; it compiles argument
//! vectors (and, for one backend, environment assignments) as plain data,
//! pinned to spec-level models, and the embedding program executes them.

use vstd::prelude::*;
use vstd::string::StringExecFns;

verus! {

/// Appends one argument; the vector's model grows by exactly that argument.
pub fn push_arg(args: &mut Vec<String>, arg: String)
    ensures
        final (args).deep_view() == old(args).deep_view() + seq![arg@],
{
    let ghost before = args.deep_view();
    args.push(arg);
    proof {
        assert(args.deep_view() =~= before + seq![arg@]);
    }
}

/// Appends one argument only when `cond` holds; the vector's model grows by
/// the one-element segment the condition selects.
pub fn push_arg_if(args: &mut Vec<String>, cond: bool, arg: String)
    ensures
        final (args).deep_view() == old(args).deep_view() + (if cond {
            seq![arg@]
        } else {
            Seq::<Seq<char>>::empty()
        }),
{
    let ghost before = args.deep_view();
    if cond {
        args.push(arg);
        proof {
            assert(args.deep_view() =~= before + seq![arg@]);
        }
    } else {
        proof {
            assert(args.deep_view() =~= before + Seq::<Seq<char>>::empty());
        }
    }
}

/// Appends a whole argument vector; the models concatenate.
pub fn append_args(args: &mut Vec<String>, tail: Vec<String>)
    ensures
        final (args).deep_view() == old(args).deep_view() + tail.deep_view(),
{
    let ghost before = args.deep_view();
    let ghost gtail = tail.deep_view();
    let mut t = tail;
    args.append(&mut t);
    proof {
        assert(args.deep_view() =~= before + gtail);
    }
}

/// Concatenation of two pieces into one argument.
pub fn arg_concat(prefix: &str, suffix: &str) -> (r: String)
    ensures
        r@ == prefix@ + suffix@,
{
    let mut r = prefix.to_owned();
    r.append(suffix);
    r
}

/// `dir/name`, the Unix path convention the orchestrator works with.
pub open spec fn join_path_chars(dir: Seq<char>, name: Seq<char>) -> Seq<char> {
    dir + seq!['/'] + name
}

/// Joins a directory and a name with a path separator.
pub fn join_path(dir: &str, name: &str) -> (r: String)
    ensures
        r@ == join_path_chars(dir@, name@),
{
    proof {
        reveal_strlit("/");
        assert("/"@ =~= seq!['/']);
    }
    let mut r = dir.to_owned();
    r.append("/");
    r.append(name);
    proof {
        assert(r@ =~= join_path_chars(dir@, name@));
    }
    r
}

/// Judges one subprocess exit: success exactly when the tool reported it,
/// and otherwise the failure message the caller composed, unchanged.
pub fn assess_exit_status(success: bool, failure_message: String) -> (r: Result<(), String>)
    ensures
        r is Ok <==> success,
        !success ==> (r matches Err(e) && e@ == failure_message@),
{
    if success {
        Ok(())
    } else {
        Err(failure_message)
    }
}

/// The error reported for a command that ran and failed; `status` is the
/// platform's rendering of the exit status.
pub fn command_failure_message(status: &str) -> (r: String)
    ensures
        r@ == "Command failed with status: "@ + status@,
{
    arg_concat("Command failed with status: ", status)
}

/// The error reported when a command could not be spawned at all.
pub fn spawn_failure_message(detail: &str) -> (r: String)
    ensures
        r@ == "Failed to spawn process: "@ + detail@,
{
    arg_concat("Failed to spawn process: ", detail)
}

/// The error reported when waiting on a spawned command failed.
pub fn wait_failure_message(detail: &str) -> (r: String)
    ensures
        r@ == "Failed to wait on child: "@ + detail@,
{
    arg_concat("Failed to wait on child: ", detail)
}

/// The error reported when the archive tool could not be executed.
pub fn tar_failure_message(detail: &str) -> (r: String)
    ensures
        r@ == "Failed to execute tar: "@ + detail@,
{
    arg_concat("Failed to execute tar: ", detail)
}

/// The error reported when the downloaded archive could not be written.
pub fn write_failure_message(path: &str, detail: &str) -> (r: String)
    ensures
        r@ == "Failed to write to file "@ + path@ + ": "@ + detail@,
{
    let mut r = arg_concat("Failed to write to file ", path);
    r.append(": ");
    r.append(detail);
    proof {
        assert(r@ =~= "Failed to write to file "@ + path@ + ": "@ + detail@);
    }
    r
}

/// The arguments of the external archive tool's extract mode: unpack
/// `archive` into `dest`.
pub open spec fn tar_extract_args_chars(archive: Seq<char>, dest: Seq<char>) -> Seq<Seq<char>> {
    seq!["-xf"@, archive, "-C"@, dest]
}

/// Compiles the archive tool's extract arguments.
pub fn tar_extract_args(archive_path: &str, dest_dir: &str) -> (r: Vec<String>)
    ensures
        r.deep_view() == tar_extract_args_chars(archive_path@, dest_dir@),
{
    let mut args: Vec<String> = Vec::new();
    push_arg(&mut args, "-xf".to_owned());
    push_arg(&mut args, archive_path.to_owned());
    push_arg(&mut args, "-C".to_owned());
    push_arg(&mut args, dest_dir.to_owned());
    proof {
        assert(args.deep_view() =~= tar_extract_args_chars(archive_path@, dest_dir@));
    }
    args
}

} // verus!
