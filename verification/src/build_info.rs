//! Version and build metadata of this library.
//!
//! The library is built from source without a stamping step, so the source
//! control fields are absent and the build time is not recorded.

use vstd::prelude::*;
use vstd::string::StringExecFns;
use crate::text::opt_str_view;

verus! {

/// The text of the package version.
pub open spec fn version_text() -> Seq<char> {
    "0.1.0"@
}

/// The text that stands for the build time.
pub open spec fn build_time_text() -> Seq<char> {
    "unknown"@
}

/// The package version, such as `0.1.0`.
pub fn version() -> (v: &'static str)
    ensures
        v@ == version_text(),
{
    "0.1.0"
}

/// The time at which this build was made.
pub fn build_time() -> (t: &'static str)
    ensures
        t@ == build_time_text(),
{
    "unknown"
}

/// The address of the source repository; empty where none is recorded.
pub fn repository() -> (r: &'static str)
    ensures
        r@ == ""@,
{
    ""
}

/// The short hash of the commit that was built, if it is known.
pub fn git_commit() -> (c: Option<&'static str>)
    ensures
        c is None,
{
    None
}

/// The tag that points exactly at the commit that was built, if any.
pub fn git_tag() -> (t: Option<&'static str>)
    ensures
        t is None,
{
    None
}

/// Whether the working tree had uncommitted changes when it was built.
pub fn git_dirty() -> (d: bool)
    ensures
        !d,
{
    false
}

/// The suffix that marks a build from a modified working tree.
pub open spec fn dirty_suffix(dirty: bool) -> Seq<char> {
    if dirty {
        "-dirty"@
    } else {
        Seq::empty()
    }
}

/// The source control part of the full version: the tag where there is one,
/// else the commit hash, each with the dirty suffix; nothing where neither is
/// known.
pub open spec fn git_part(tag: Option<Seq<char>>, commit: Option<Seq<char>>, dirty: bool) -> Seq<
    char,
> {
    match (tag, commit) {
        (Some(t), _) => " @ "@ + t + dirty_suffix(dirty),
        (None, Some(c)) => " @ "@ + c + dirty_suffix(dirty),
        (None, None) => Seq::empty(),
    }
}

/// The full version line: `<version><git part> (built <time>)`.
pub open spec fn full_version_text(
    version: Seq<char>,
    tag: Option<Seq<char>>,
    commit: Option<Seq<char>>,
    dirty: bool,
    built: Seq<char>,
) -> Seq<char> {
    version + git_part(tag, commit, dirty) + " (built "@ + built + ")"@
}

/// Composes the full version line from its parts.
pub fn compose_full_version(
    version: &str,
    tag: Option<&str>,
    commit: Option<&str>,
    dirty: bool,
    built: &str,
) -> (out: String)
    ensures
        out@ == full_version_text(
            version@,
            opt_str_view(tag),
            opt_str_view(commit),
            dirty,
            built@,
        ),
{
    let mut out = String::from_str(version);
    let reference = match tag {
        Some(t) => Some(t),
        None => commit,
    };
    match reference {
        Some(r) => {
            out.append(" @ ");
            out.append(r);
            if dirty {
                out.append("-dirty");
            }
        },
        None => {},
    }
    out.append(" (built ");
    out.append(built);
    out.append(")");
    out
}

/// The full version line of this build, with its source control context.
pub fn full_version() -> (out: String)
    ensures
        out@ == full_version_text(version_text(), None, None, false, build_time_text()),
{
    compose_full_version(version(), git_tag(), git_commit(), git_dirty(), build_time())
}

} // verus!
