//! The participant merge contract: the plugin's own projection is taken
//! from the plugin's side, and status merges with the close asymmetry.

use vstd::prelude::*;
use crate::config::{CloseMirror, FORGE_PROJECTION_PREFIX, PROJECTION_PREFIX};
use crate::text::{lit, str_eq};

verus! {

broadcast use vstd::string::group_string_axioms;

/// Merge two views of the plugin's own projection: the remote (GitHub-side)
/// view wins when present, else the local one is kept.
pub fn merge_projection<T>(local: Option<T>, remote: Option<T>) -> (r: Option<T>)
    ensures
        r == (match remote {
            Some(x) => Some(x),
            None => local,
        }),
{
    match remote {
        Some(x) => Some(x),
        None => local,
    }
}

/// The status balls holds after the merge.
pub open spec fn merge_status_spec(local: Seq<char>, gh_state: Seq<char>, policy: CloseMirror) -> Seq<
    char,
> {
    if policy == CloseMirror::Off {
        local
    } else if gh_state == "closed"@ && local != "closed"@ {
        "closed"@
    } else {
        local
    }
}

/// Apply the status-merge asymmetry: a GitHub close closes balls (unless the
/// policy is `off`); otherwise balls' status stands.
pub fn merge_status(local_status: &str, gh_state: &str, close_mirror: CloseMirror) -> (r: String)
    ensures
        r@ == merge_status_spec(local_status@, gh_state@, close_mirror),
{
    if close_mirror == CloseMirror::Off {
        return lit(local_status);
    }
    if str_eq(gh_state, "closed") && !str_eq(local_status, "closed") {
        return lit("closed");
    }
    lit(local_status)
}

/// The projection prefix this plugin owns.
pub fn owned_projection_prefix() -> (r: &'static str)
    ensures
        r@ == "external.github-issues."@,
{
    PROJECTION_PREFIX
}

/// Merging status is idempotent, GitHub-open never changes balls' status,
/// and with the policy `off` balls' status always stands.
pub proof fn law_merge_status(local: Seq<char>, gh_state: Seq<char>, policy: CloseMirror)
    ensures
        merge_status_spec(merge_status_spec(local, gh_state, policy), gh_state, policy)
            == merge_status_spec(local, gh_state, policy),
        gh_state != "closed"@ ==> merge_status_spec(local, gh_state, policy) == local,
        policy == CloseMirror::Off ==> merge_status_spec(local, gh_state, policy) == local,
{
}

/// The plugin's projection namespace is disjoint from the forge plugin's:
/// neither prefix is a prefix of the other.
pub proof fn law_projection_prefixes_disjoint()
    ensures
        !crate::text::starts_with("external.github-issues."@, "external.github."@),
        !crate::text::starts_with("external.github."@, "external.github-issues."@),
{
    reveal_strlit("external.github-issues.");
    reveal_strlit("external.github.");
    assert("external.github-issues."@.take(16)[15] == '-');
    assert("external.github."@[15] == '.');
}

} // verus!
