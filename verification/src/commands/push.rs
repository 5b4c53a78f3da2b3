//! The per-task push: decide from a task's projection whether GitHub needs a
//! create, a patch or nothing, and the projection blob a push records.

use vstd::prelude::*;
use crate::config::{owner_name_spec, PluginConfig};
use crate::content::body_hash_spec;
use crate::error::PluginError;
use crate::issues_api::GhIssue;
use crate::marker::opt_view;
use crate::pull_content::{body_hash, marked, pushed_title};
use crate::pull_emit::now_rfc3339;
use crate::text::{chars_of, extend, lit, str_eq, string_of};
use crate::types::{ProjectionBlob, Task};

verus! {

broadcast use vstd::string::group_string_axioms;

/// What a push of one task asks of GitHub.
#[derive(Debug, Clone)]
pub enum TaskPush {
    /// GitHub already shows what the task holds (or a closed task was never
    /// mirrored): print `{}`.
    Noop,
    /// Open a new issue.
    Create { owner: String, name: String, title: String, body: String },
    /// Bring a mirrored issue in line.
    Patch { owner: String, name: String, number: u64, title: String, body: String, state: String },
}

/// The status recorded at the last sync, if any.
pub open spec fn last_status(task: Task) -> Option<Seq<char>> {
    match task.issue {
        Some(p) => opt_view(p.last_synced_status),
        None => None,
    }
}

/// The title recorded at the last sync, if any.
pub open spec fn last_title(task: Task) -> Option<Seq<char>> {
    match task.issue {
        Some(p) => opt_view(p.last_synced_title),
        None => None,
    }
}

/// The body hash recorded at the last sync, if any.
pub open spec fn last_hash(task: Task) -> Option<Seq<char>> {
    match task.issue {
        Some(p) => opt_view(p.last_synced_body_hash),
        None => None,
    }
}

/// The mirrored issue number, if any.
pub open spec fn stored_number(task: Task) -> Option<u64> {
    match task.issue {
        Some(p) => p.number,
        None => None,
    }
}

/// Whether the last sync recorded exactly what the task holds now.
pub open spec fn in_sync(task: Task) -> bool {
    &&& stored_number(task) is Some
    &&& last_status(task) == Some(task.status@)
    &&& last_title(task) == Some(marked(task.title@, task.id@))
    &&& last_hash(task) == Some(body_hash_spec(task.description@))
}

/// The issue state a task status maps to.
pub open spec fn issue_state(status: Seq<char>) -> Seq<char> {
    if status == "closed"@ {
        "closed"@
    } else {
        "open"@
    }
}

/// Whether `r` is the push decision for `task` under `cfg`.
pub open spec fn task_push_ok(cfg: PluginConfig, task: Task, r: Result<TaskPush, PluginError>) -> bool {
    if (task.status@ == "closed"@ && stored_number(task) is None) || in_sync(task) {
        r matches Ok(TaskPush::Noop)
    } else {
        match owner_name_spec(cfg.base.repo@) {
            None => r matches Err(PluginError::Config(m)) && m@ == "repo is not owner/name"@,
            Some((o, n)) => match stored_number(task) {
                Some(num) => r matches Ok(TaskPush::Patch { owner, name, number, title, body, state })
                    && owner@ == o && name@ == n && number == num && title@ == marked(
                    task.title@,
                    task.id@,
                ) && body@ == task.description@ && state@ == issue_state(task.status@),
                None => r matches Ok(TaskPush::Create { owner, name, title, body }) && owner@ == o
                    && name@ == n && title@ == marked(task.title@, task.id@) && body@
                    == task.description@,
            },
        }
    }
}

fn opt_eq(o: Option<&String>, s: &str) -> (r: bool)
    ensures
        r == (match o {
            Some(v) => v@ == s@,
            None => false,
        }),
{
    match o {
        Some(v) => str_eq(v.as_str(), s),
        None => false,
    }
}

/// Decide a task's push: noop for a closed task never mirrored and for a
/// task whose status, pushed title and body hash all match the last sync;
/// else a patch of the mirrored issue, or a create.
pub fn plan_task_push(config: &PluginConfig, task: &Task) -> (r: Result<TaskPush, PluginError>)
    ensures
        task_push_ok(*config, *task, r),
{
    let stored = task.issue_number();
    let closed = str_eq(task.status.as_str(), "closed");
    if closed && stored.is_none() {
        return Ok(TaskPush::Noop);
    }
    let title = pushed_title(task);
    let body_h = body_hash(task.description.as_str());
    let (last_status, last_title, last_hash) = match &task.issue {
        Some(p) => (p.last_synced_status.as_ref(), p.last_synced_title.as_ref(), p.last_synced_body_hash.as_ref()),
        None => (None, None, None),
    };
    if stored.is_some() && opt_eq(last_status, task.status.as_str()) && opt_eq(
        last_title,
        title.as_str(),
    ) && opt_eq(last_hash, body_h.as_str()) {
        return Ok(TaskPush::Noop);
    }
    let (owner, name) = match config.owner_name() {
        Some(on) => on,
        None => {
            return Err(PluginError::Config(lit("repo is not owner/name")));
        },
    };
    let body = task.description.clone();
    match stored {
        Some(number) => {
            let state = if closed {
                lit("closed")
            } else {
                lit("open")
            };
            Ok(TaskPush::Patch { owner, name, number, title, body, state })
        },
        None => Ok(TaskPush::Create { owner, name, title, body }),
    }
}

/// The error for a `--task` that names another task than stdin holds.
pub open spec fn task_mismatch_message(flag: Seq<char>, stdin_id: Seq<char>) -> Seq<char> {
    "--task "@ + flag + " does not match stdin task id "@ + stdin_id
}

/// The `--task` flag must name the task on stdin.
pub fn check_task_id(task_id: &str, task: &Task) -> (r: Result<(), PluginError>)
    ensures
        task_id@ == task.id@ ==> r is Ok,
        task_id@ != task.id@ ==> (r matches Err(PluginError::Other(m)) && m@
            == task_mismatch_message(task_id@, task.id@)),
{
    if str_eq(task.id.as_str(), task_id) {
        return Ok(());
    }
    let mut v = chars_of("--task ");
    extend(&mut v, &chars_of(task_id));
    extend(&mut v, &chars_of(" does not match stdin task id "));
    extend(&mut v, &chars_of(task.id.as_str()));
    Err(PluginError::Other(string_of(&v)))
}

/// The projection a push records for the issue GitHub answered with,
/// stamped with the sync time `synced_at`; its source is `balls`.
pub fn issue_blob_at(
    issue: &GhIssue,
    last_synced_status: &str,
    last_synced_title: &str,
    body: &str,
    synced_at: String,
) -> (r: ProjectionBlob)
    ensures
        r.number == issue.number,
        r.url@ == issue.html_url@,
        r.state@ == issue.state@,
        r.source@ == "balls"@,
        r.synced_at == synced_at,
        r.last_synced_status@ == last_synced_status@,
        opt_view(r.last_synced_title) == Some(last_synced_title@),
        opt_view(r.last_synced_body_hash) == Some(body_hash_spec(body@)),
{
    ProjectionBlob {
        number: issue.number,
        url: issue.html_url.clone(),
        state: issue.state.clone(),
        source: lit("balls"),
        synced_at,
        last_synced_status: lit(last_synced_status),
        last_synced_title: Some(lit(last_synced_title)),
        last_synced_body_hash: Some(body_hash(body)),
    }
}

/// The projection a push records, stamped with the current time; every
/// field but the sync time is as [`issue_blob_at`] says.
pub fn issue_blob(issue: &GhIssue, last_synced_status: &str, last_synced_title: &str, body: &str) -> (r:
    ProjectionBlob)
    ensures
        r.number == issue.number,
        r.url@ == issue.html_url@,
        r.state@ == issue.state@,
        r.source@ == "balls"@,
        r.last_synced_status@ == last_synced_status@,
        opt_view(r.last_synced_title) == Some(last_synced_title@),
        opt_view(r.last_synced_body_hash) == Some(body_hash_spec(body@)),
{
    issue_blob_at(issue, last_synced_status, last_synced_title, body, now_rfc3339())
}

/// A push that lands is not repeated: once the projection holds what
/// [`issue_blob`] recorded for the task's status, pushed title and body, the
/// next push of the unchanged task is a noop.
pub proof fn law_recorded_push_is_noop(cfg: PluginConfig, task: Task, r: Result<TaskPush, PluginError>)
    requires
        stored_number(task) is Some,
        last_status(task) == Some(task.status@),
        last_title(task) == Some(marked(task.title@, task.id@)),
        last_hash(task) == Some(body_hash_spec(task.description@)),
        task_push_ok(cfg, task, r),
    ensures
        r matches Ok(TaskPush::Noop),
{
}

/// A status change always reaches GitHub: for a mirrored task whose status
/// differs from the one the last sync recorded, the push patches the mirrored
/// issue, closing it for a closed task and keeping it open otherwise, whatever
/// the title and body did.
pub proof fn law_status_change_is_pushed(
    cfg: PluginConfig,
    task: Task,
    r: Result<TaskPush, PluginError>,
)
    requires
        task_push_ok(cfg, task, r),
        owner_name_spec(cfg.base.repo@) is Some,
        task.issue matches Some(p) && p.number is Some && opt_view(p.last_synced_status) != Some(
            task.status@,
        ),
    ensures
        r matches Ok(TaskPush::Patch { number, title, body, state, .. }) && Some(number)
            == task.issue.unwrap().number && title@ == task.title@ + " ["@ + task.id@ + "]"@
            && body@ == task.description@ && state@ == (if task.status@ == "closed"@ {
            "closed"@
        } else {
            "open"@
        }),
{
}

} // verus!
