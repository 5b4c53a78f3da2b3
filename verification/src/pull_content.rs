//! Title and body decisions of the three-way content mirror: given the
//! GitHub-side value, the balls-side value, and what the last sync recorded,
//! who moved?

use vstd::prelude::*;
use crate::content::body_hash_spec;
use crate::issues_api::{body_or_empty, GhIssue};
use crate::text::{chars_eq, chars_of, ends_with, ends_with_chars, extend, string_of, subvec};
use crate::types::Task;

verus! {

broadcast use vstd::string::group_string_axioms;

/// FNV-1a 64-bit hex digest of `s`, the same as the push side records.
pub fn body_hash(s: &str) -> (r: String)
    ensures
        r@ == body_hash_spec(s@),
        r@.len() == 16,
{
    crate::content::body_hash(s)
}

/// `title [id]`.
pub open spec fn marked(title: Seq<char>, id: Seq<char>) -> Seq<char> {
    title + " ["@ + id + "]"@
}

fn marked_chars(title: &str, id: &str) -> (r: Vec<char>)
    ensures
        r@ == marked(title@, id@),
{
    let mut v = chars_of(title);
    extend(&mut v, &chars_of(" ["));
    extend(&mut v, &chars_of(id));
    extend(&mut v, &chars_of("]"));
    v
}

/// What a task's title looks like on GitHub after the next push.
pub fn pushed_title(task: &Task) -> (r: String)
    ensures
        r@ == marked(task.title@, task.id@),
{
    string_of(&marked_chars(task.title.as_str(), task.id.as_str()))
}

/// `title` without a trailing ` [task_id]`, when it has exactly that suffix.
pub open spec fn strip_marker_spec(title: Seq<char>, task_id: Seq<char>) -> Seq<char> {
    let m = " ["@ + task_id + "]"@;
    if ends_with(title, m) {
        title.take(title.len() - m.len())
    } else {
        title
    }
}

/// Strip the trailing ` [task_id]` marker the push side appends; a title
/// without that exact suffix is returned as is.
pub fn strip_marker(title: &str, task_id: &str) -> (r: String)
    ensures
        r@ == strip_marker_spec(title@, task_id@),
{
    let t = chars_of(title);
    let mut m = chars_of(" [");
    extend(&mut m, &chars_of(task_id));
    extend(&mut m, &chars_of("]"));
    if ends_with_chars(&t, &m) {
        string_of(&subvec(&t, 0, t.len() - m.len()))
    } else {
        string_of(&t)
    }
}

/// The outcome of comparing one field.
#[derive(Debug, Clone, Copy, PartialEq, Eq, Structural)]
pub enum FieldDecision {
    /// Nothing to do: both sides match, or only balls moved.
    Noop,
    /// GitHub moved alone; mirror its value to balls.
    Mirror,
    /// Both sides moved; leave balls, emit a note.
    Conflict,
}

/// The decision for a field from who moved.
pub open spec fn decision_spec(gh_moved: bool, balls_moved: bool) -> FieldDecision {
    if !gh_moved {
        FieldDecision::Noop
    } else if !balls_moved {
        FieldDecision::Mirror
    } else {
        FieldDecision::Conflict
    }
}

/// Who-moved to decision.
pub fn decision(gh_moved: bool, balls_moved: bool) -> (r: FieldDecision)
    ensures
        r == decision_spec(gh_moved, balls_moved),
{
    if !gh_moved {
        FieldDecision::Noop
    } else if !balls_moved {
        FieldDecision::Mirror
    } else {
        FieldDecision::Conflict
    }
}

/// The title decision: GitHub moved if its title differs from the last
/// synced one; balls moved if its pushed title does.
pub fn decide_title(issue: &GhIssue, task: &Task, last_synced: &str) -> (r: FieldDecision)
    ensures
        r == decision_spec(
            issue.title@ != last_synced@,
            marked(task.title@, task.id@) != last_synced@,
        ),
{
    let last = chars_of(last_synced);
    let gh_moved = !chars_eq(&chars_of(issue.title.as_str()), &last);
    let balls_moved = !chars_eq(&marked_chars(task.title.as_str(), task.id.as_str()), &last);
    decision(gh_moved, balls_moved)
}

/// The body decision, by hash against the last synced hash.
pub fn decide_body(issue: &GhIssue, task: &Task, last_hash: &str) -> (r: FieldDecision)
    ensures
        r == decision_spec(
            body_hash_spec(body_or_empty(issue.body)) != last_hash@,
            body_hash_spec(task.description@) != last_hash@,
        ),
{
    let last = chars_of(last_hash);
    let gh = body_hash(issue.body_str());
    let balls = body_hash(task.description.as_str());
    let gh_moved = !chars_eq(&chars_of(gh.as_str()), &last);
    let balls_moved = !chars_eq(&chars_of(balls.as_str()), &last);
    decision(gh_moved, balls_moved)
}

/// Stripping the marker undoes pushing it: `strip_marker(pushed_title)` is
/// the bare title again.
pub proof fn law_strip_marker_undoes_pushed_title(title: Seq<char>, id: Seq<char>)
    ensures
        strip_marker_spec(marked(title, id), id) == title,
{
    let m = " ["@ + id + "]"@;
    assert(marked(title, id) == title + m);
    assert((title + m).skip((title + m).len() - m.len()) == m);
    assert((title + m).take((title + m).len() - m.len()) == title);
}

/// GitHub wins a field only when balls did not move it; a field only balls
/// moved is never overwritten.
pub proof fn law_balls_wins_unless_only_github_moved(gh_moved: bool, balls_moved: bool)
    ensures
        decision_spec(gh_moved, balls_moved) == FieldDecision::Mirror <==> (gh_moved && !balls_moved),
        !gh_moved ==> decision_spec(gh_moved, balls_moved) == FieldDecision::Noop,
{
}

} // verus!
