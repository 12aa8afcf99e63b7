//! Destination handling for the merged file: resolving the typed name (or
//! a timestamped default) to a path, and validating that the path may be
//! created. The filesystem answers (`is_dir`, `exists`) come from the
//! caller; every decision is made here.

use crate::timestamp::spec_format_timestamp;
use crate::timestamp::format_timestamp;
use crate::timestamp::Timestamp;
use vstd::prelude::*;
use vstd::string::StrSliceExecFns;
use vstd::string::StringExecFns;

verus! {

/// Whether the typed name holds a path separator (either slash), in which
/// case it is taken literally as a path.
pub open spec fn spec_has_separator(s: Seq<char>) -> bool {
    exists|i: int| 0 <= i < s.len() && (s[i] == '/' || s[i] == '\\')
}

/// Returns true exactly when the name contains a path separator.
pub fn has_separator(s: &str) -> (r: bool)
    ensures
        r == spec_has_separator(s@),
{
    let n = s.unicode_len();
    let mut i: usize = 0;
    while i < n
        invariant
            n == s@.len(),
            i <= n,
            forall|j: int| 0 <= j < i ==> s@[j] != '/' && s@[j] != '\\',
        decreases n - i,
    {
        let c = s.get_char(i);
        if c == '/' || c == '\\' {
            return true;
        }
        i = i + 1;
    }
    false
}

/// A name joined under a directory; components are joined with a forward
/// slash, which every supported platform accepts.
pub open spec fn path_join(dir: Seq<char>, name: Seq<char>) -> Seq<char> {
    dir + seq!['/'] + name
}

/// The default name of the merged file for a given local time.
pub open spec fn spec_default_name(ts: Timestamp) -> Seq<char> {
    "merged_file-"@ + spec_format_timestamp(ts)
}

/// How the typed (stripped) name resolves to a destination path: an empty
/// name takes the timestamped default under the working directory, a name
/// with a separator is taken literally, and any other name goes under the
/// working directory.
pub open spec fn spec_resolve_destination(input: Seq<char>, cwd: Seq<char>, ts: Timestamp) -> Seq<
    char,
> {
    if input.len() == 0 {
        path_join(cwd, spec_default_name(ts))
    } else if spec_has_separator(input) {
        input
    } else {
        path_join(cwd, input)
    }
}

/// The timestamped default name of the merged file.
pub fn default_name(ts: &Timestamp) -> (r: String)
    requires
        ts.wf(),
    ensures
        r@ == spec_default_name(*ts),
{
    let mut out = String::from_str("merged_file-");
    let stamp = format_timestamp(ts);
    out.append(stamp.as_str());
    out
}

/// Joins a name under a directory with a forward slash.
fn join_under(dir: &str, name: &str) -> (r: String)
    ensures
        r@ == path_join(dir@, name@),
{
    let mut out = dir.to_owned();
    out.append("/");
    proof {
        reveal_strlit("/");
        assert(out@ =~= dir@ + seq!['/']);
    }
    out.append(name);
    proof {
        assert(out@ =~= path_join(dir@, name@));
    }
    out
}

/// Resolves the typed (stripped) name to the destination path, as
/// [`spec_resolve_destination`] says, for the working directory `cwd` and
/// the local time `ts`.
pub fn resolve_destination(input: &str, cwd: &str, ts: &Timestamp) -> (dest: String)
    requires
        ts.wf(),
    ensures
        dest@ == spec_resolve_destination(input@, cwd@, *ts),
{
    if input.unicode_len() == 0 {
        let name = default_name(ts);
        join_under(cwd, name.as_str())
    } else if has_separator(input) {
        input.to_owned()
    } else {
        join_under(cwd, input)
    }
}

/// The verdict on a candidate destination path.
#[derive(Debug, PartialEq, Eq, Structural)]
pub enum DestinationCheck {
    /// The path is an existing directory: warn and re-prompt.
    IsDirectory,
    /// The path already exists as a file: warn and re-prompt.
    AlreadyExists,
    /// The path does not exist: the merged file may be created there.
    Accepted,
}

/// The verdict for a path the filesystem reports as (`is_dir`, `exists`).
pub open spec fn spec_validate_destination(is_dir: bool, exists: bool) -> DestinationCheck {
    if is_dir {
        DestinationCheck::IsDirectory
    } else if exists {
        DestinationCheck::AlreadyExists
    } else {
        DestinationCheck::Accepted
    }
}

/// Decides whether the merged file may be created at a candidate path,
/// given the filesystem's answers for that path.
pub fn validate_destination(is_dir: bool, exists: bool) -> (r: DestinationCheck)
    ensures
        r == spec_validate_destination(is_dir, exists),
{
    if is_dir {
        DestinationCheck::IsDirectory
    } else if exists {
        DestinationCheck::AlreadyExists
    } else {
        DestinationCheck::Accepted
    }
}

/// A path that already exists, whether as a file or as a directory, is
/// never accepted as the destination.
pub proof fn lemma_existing_destination_rejected(is_dir: bool, exists: bool)
    requires
        is_dir || exists,
    ensures
        spec_validate_destination(is_dir, exists) != DestinationCheck::Accepted,
{
}

/// The three destination-resolution rules, stated over the resolved path:
/// an empty name yields the timestamped default under the working
/// directory, a separator-free name goes under the working directory, and
/// a name with a separator is the path itself.
pub proof fn lemma_destination_resolution(input: Seq<char>, cwd: Seq<char>, ts: Timestamp)
    ensures
        input.len() == 0 ==> spec_resolve_destination(input, cwd, ts) == cwd + seq!['/']
            + "merged_file-"@ + spec_format_timestamp(ts),
        input.len() > 0 && !spec_has_separator(input) ==> spec_resolve_destination(input, cwd, ts)
            == cwd + seq!['/'] + input,
        spec_has_separator(input) ==> spec_resolve_destination(input, cwd, ts) == input,
{
    if input.len() == 0 {
        assert(path_join(cwd, spec_default_name(ts)) =~= cwd + seq!['/'] + "merged_file-"@
            + spec_format_timestamp(ts));
    }
}

} // verus!
