//! One-time legacy adoption: stamp the `[bl-xxxx]` marker onto each issue a
//! pre-greenfield task was mirrored to, so the first sync re-joins it instead
//! of auto-creating a duplicate.

use vstd::prelude::*;
use crate::marker::{append, append_spec};
use crate::text::{chars_eq, chars_of, last_index, last_index_of, str_eq, subvec};

verus! {

broadcast use vstd::string::group_string_axioms;

/// The slice of a legacy task this adoption reads.
#[derive(Debug, Clone)]
pub struct LegacyTask {
    pub id: String,
    pub status: String,
    /// `external.github-issues.issue.number`, if the task was ever mirrored.
    pub issue_number: Option<u64>,
}

/// What an adoption run did.
#[derive(Debug, Clone, Copy, PartialEq, Eq)]
pub struct Summary {
    /// Issues now carrying the marker.
    pub stamped: usize,
    /// Legacy tasks skipped: closed or never mirrored.
    pub skipped: usize,
}

/// Whether one legacy task got its marker stamped or was skipped.
#[derive(Debug, Clone, Copy, PartialEq, Eq, Structural)]
pub enum Outcome {
    Stamped,
    Skipped,
}

/// The issue to stamp for a legacy task: none for a closed task (there is no
/// greenfield ball to join) or a task never mirrored.
pub fn adopt_target(task: &LegacyTask) -> (r: Option<u64>)
    ensures
        task.status@ == "closed"@ ==> r is None,
        task.status@ != "closed"@ ==> r == task.issue_number,
{
    if str_eq(task.status.as_str(), "closed") {
        return None;
    }
    task.issue_number
}

/// The title to PATCH onto the issue: its live title marked with the task id,
/// or nothing when it already carries exactly that marker.
pub fn restamp(title: &str, id: &str) -> (r: Option<String>)
    ensures
        append_spec(title@, id@) == title@ ==> r is None,
        append_spec(title@, id@) != title@ ==> (r matches Some(t) && t@ == append_spec(title@, id@)),
{
    let marked = append(title, id);
    if chars_eq(&chars_of(marked.as_str()), &chars_of(title)) {
        None
    } else {
        Some(marked)
    }
}

impl Default for Summary {
    /// Nothing stamped, nothing skipped.
    fn default() -> (r: Summary)
        ensures
            r.stamped == 0,
            r.skipped == 0,
    {
        Summary { stamped: 0, skipped: 0 }
    }
}

impl Summary {
    /// Count one task's outcome.
    pub fn record(&mut self, outcome: Outcome)
        requires
            old(self).stamped < usize::MAX,
            old(self).skipped < usize::MAX,
        ensures
            outcome == Outcome::Stamped ==> final(self).stamped == old(self).stamped + 1
                && final(self).skipped == old(self).skipped,
            outcome == Outcome::Skipped ==> final(self).skipped == old(self).skipped + 1
                && final(self).stamped == old(self).stamped,
    {
        match outcome {
            Outcome::Stamped => self.stamped = self.stamped + 1,
            Outcome::Skipped => self.skipped = self.skipped + 1,
        }
    }
}

/// Whether a file name has the extension `json` (the text after its last
/// `.`, when that `.` is not the first char).
pub open spec fn has_json_extension_spec(name: Seq<char>) -> bool {
    let i = last_index_of(name, '.');
    i > 0 && name.skip(i + 1) == "json"@
}

/// Whether `file_name` names a legacy task file.
pub fn has_json_extension(file_name: &str) -> (r: bool)
    ensures
        r == has_json_extension_spec(file_name@),
{
    let v = chars_of(file_name);
    match last_index(&v, '.') {
        Some(i) => {
            proof {
                crate::text::lemma_last_index_of_shape(v@, '.');
            }
            assert(i < v.len());
            if i == 0 {
                return false;
            }
            let ext = subvec(&v, i + 1, v.len());
            assert(ext@ == v@.skip(i + 1));
            chars_eq(&ext, &chars_of("json"))
        },
        None => false,
    }
}

} // verus!
