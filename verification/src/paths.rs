//! Pure layout of a record on the filesystem: where a record's directory and
//! its status, stdout and stderr files live under a base path.
//!
//! A record ID is treated as an opaque path segment here; no validation of
//! its contents happens at this layer.

use vstd::prelude::*;
use vstd::string::StringExecFns;

verus! {

/// A child's location under a parent directory: the parent, a separator, and
/// the child's name.
pub open spec fn path_join(parent: Seq<char>, child: Seq<char>) -> Seq<char> {
    parent.push('/') + child
}

/// Appends a child's name under a parent directory.
fn join(parent: &str, child: &str) -> (r: String)
    ensures
        r@ == path_join(parent@, child@),
{
    let mut p = parent.to_owned();
    p.append("/");
    p.append(child);
    proof {
        reveal_strlit("/");
        assert(p@ =~= path_join(parent@, child@));
    }
    p
}

/// Returns the path to a specific record based on its ID.
pub fn record_path(base_path: &str, record_id: &str) -> (r: String)
    ensures
        r@ == path_join(base_path@, record_id@),
{
    join(base_path, record_id)
}

/// Returns a child path relative to a record's path.
pub fn record_relative_path(base_path: &str, record_id: &str, child_path: &str) -> (r: String)
    ensures
        r@ == path_join(path_join(base_path@, record_id@), child_path@),
{
    let p = record_path(base_path, record_id);
    join(p.as_str(), child_path)
}

/// Returns the path to a record's status file based on its ID.
pub fn status_path(base_path: &str, record_id: &str) -> (r: String)
    ensures
        r@ == path_join(path_join(base_path@, record_id@), "status"@),
{
    record_relative_path(base_path, record_id, "status")
}

/// Returns the path to a record's stderr file based on its ID.
pub fn stderr_path(base_path: &str, record_id: &str) -> (r: String)
    ensures
        r@ == path_join(path_join(base_path@, record_id@), "stderr"@),
{
    record_relative_path(base_path, record_id, "stderr")
}

/// Returns the path to a record's stdout file based on its ID.
pub fn stdout_path(base_path: &str, record_id: &str) -> (r: String)
    ensures
        r@ == path_join(path_join(base_path@, record_id@), "stdout"@),
{
    record_relative_path(base_path, record_id, "stdout")
}

/// Returns the default base path used for storing records: the value of the
/// base-path environment variable when one is set, otherwise the
/// application's own directory under the platform's temporary location.
pub fn default_base_path(env_value: Option<String>, temp_location: &str) -> (r: String)
    ensures
        match env_value {
            Some(p) => r@ == p@,
            None => r@ == path_join(temp_location@, "cmdrec"@),
        },
{
    match env_value {
        Some(p) => p,
        None => join(temp_location, "cmdrec"),
    }
}

} // verus!
