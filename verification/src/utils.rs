//! Small verified utilities: string comparison, scratch-directory choice and
//! the installation-root path.
//!
//! The embedding program reads environment variables and probes for external
//! tools; the decisions made on what it finds are taken here, on plain
//! values, so that they are verified.

use vstd::prelude::*;
use vstd::string::StrSliceExecFns;

use crate::cmd::join_path;
use crate::cmd::join_path_chars;

verus! {

/// Character-wise string equality.
pub fn str_eq(a: &str, b: &str) -> (r: bool)
    ensures
        r == (a@ == b@),
{
    let n = a.unicode_len();
    let m = b.unicode_len();
    if n != m {
        return false;
    }
    let mut i: usize = 0;
    while i < n
        invariant
            n == a@.len(),
            n == b@.len(),
            i <= n,
            forall|j: int| 0 <= j < i ==> a@[j] == b@[j],
        decreases n - i,
    {
        if a.get_char(i) != b.get_char(i) {
            return false;
        }
        i = i + 1;
    }
    proof {
        assert(a@ =~= b@);
    }
    true
}

/// The scratch directory, chosen from the usual temporary-directory
/// variables in a fixed order of preference.
pub open spec fn system_temp_dir_chars(
    tmpdir: Option<Seq<char>>,
    tmp: Option<Seq<char>>,
    temp: Option<Seq<char>>,
    tempdir: Option<Seq<char>>,
    fallback: Seq<char>,
) -> Seq<char> {
    match tmpdir {
        Some(d) => d,
        None => match tmp {
            Some(d) => d,
            None => match temp {
                Some(d) => d,
                None => match tempdir {
                    Some(d) => d,
                    None => fallback,
                },
            },
        },
    }
}

/// Chooses the scratch directory from the values of `TMPDIR`, `TMP`, `TEMP`
/// and `TEMPDIR`, in that order, falling back to the platform default the
/// caller supplies.
pub fn get_system_temp_dir(
    tmpdir: Option<String>,
    tmp: Option<String>,
    temp: Option<String>,
    tempdir: Option<String>,
    fallback: String,
) -> (r: String)
    ensures
        r@ == system_temp_dir_chars(
            tmpdir.deep_view(),
            tmp.deep_view(),
            temp.deep_view(),
            tempdir.deep_view(),
            fallback@,
        ),
{
    if let Some(dir) = tmpdir {
        return dir;
    }
    if let Some(dir) = tmp {
        return dir;
    }
    if let Some(dir) = temp {
        return dir;
    }
    if let Some(dir) = tempdir {
        return dir;
    }
    fallback
}

/// The installation root, under the home (or roaming application data)
/// directory the platform provides.
pub open spec fn dependencies_build_path_chars(base: Seq<char>) -> Seq<char> {
    join_path_chars(base, ".thrushlang/backends/llvm/build"@)
}

/// Resolves the installation root from the platform family and the value of
/// its home variable (`HOME` on Unix, `APPDATA` on Windows). Missing
/// variables and unknown families are reported as errors rather than ending
/// the process.
pub fn get_compiler_dependencies_build_path(family: &str, base: Option<String>) -> (r: Result<
    String,
    String,
>)
    ensures
        match base {
            Some(b) => if family@ == "unix"@ || family@ == "windows"@ {
                r matches Ok(p) && p@ == dependencies_build_path_chars(b@)
            } else {
                r matches Err(e) && e@
                    == "Unsopported OS for build Thrush Programming Language backend build."@
            },
            None => if family@ == "unix"@ {
                r matches Err(e) && e@ == "Missing $HOME environment variable.\n"@
            } else if family@ == "windows"@ {
                r matches Err(e) && e@ == "Missing $APPDATA environment variable.\n"@
            } else {
                r matches Err(e) && e@
                    == "Unsopported OS for build Thrush Programming Language backend build."@
            },
        },
{
    if str_eq(family, "unix") {
        match base {
            Some(home) => Ok(join_path(home.as_str(), ".thrushlang/backends/llvm/build")),
            None => Err("Missing $HOME environment variable.\n".to_owned()),
        }
    } else if str_eq(family, "windows") {
        match base {
            Some(appdata) => Ok(join_path(appdata.as_str(), ".thrushlang/backends/llvm/build")),
            None => Err("Missing $APPDATA environment variable.\n".to_owned()),
        }
    } else {
        Err("Unsopported OS for build Thrush Programming Language backend build.".to_owned())
    }
}

} // verus!
