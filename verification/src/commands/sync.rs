//! The whole-repo sync report: every classified GitHub issue contributes its
//! update or its auto-created task, then the external-delete sweep runs over
//! the tasks whose issues no longer appear.

use vstd::prelude::*;
use crate::config::PluginConfig;
use crate::issues_api::GhIssue;
use crate::pull::known_numbers;
use crate::pull_emit::{
    candidates, created_from_at, created_ok, deleted_from_ok, sweep_deletes, MAX_CREATES_PER_SYNC,
    MAX_DELETES_PER_SYNC,
};
use crate::pull_emit::now_rfc3339;
use crate::pull_emit_update::{emits, update_ok, updated_from_at};
use crate::text::str_eq;
use crate::types::{SyncCreate, SyncReport, SyncUpdate, Task};

verus! {

broadcast use vstd::string::group_string_axioms;

/// How one listed issue relates to the task set.
#[derive(Debug, Clone)]
pub enum Classification {
    /// The issue mirrors the task with this id.
    KnownUpdate { task_id: String },
    /// An issue no task mirrors: create one.
    AutoCreate,
    /// The issue of a task that is being deleted.
    KnownDelete { task_id: String },
    /// Out of scope, with the reason.
    Skip(String),
}

/// Whether `j` is the first index of a task with id `id`.
pub open spec fn first_with_id(tasks: Seq<Task>, id: Seq<char>, j: int) -> bool {
    0 <= j < tasks.len() && tasks[j].id@ == id && forall|i: int| 0 <= i < j ==> tasks[i].id@ != id
}

/// Whether some task has id `id`.
pub open spec fn has_task(tasks: Seq<Task>, id: Seq<char>) -> bool {
    exists|j: int| 0 <= j < tasks.len() && tasks[j].id@ == id
}

/// The first task with id `id`.
pub open spec fn task_with_id(tasks: Seq<Task>, id: Seq<char>) -> Task {
    tasks[choose|j: int| first_with_id(tasks, id, j)]
}

/// The issues classified for auto-create, in listing order.
pub open spec fn autos(issues: Seq<GhIssue>, classes: Seq<Classification>) -> Seq<GhIssue>
    decreases issues.len(),
{
    if issues.len() == 0 {
        Seq::empty()
    } else {
        let init = autos(issues.drop_last(), classes);
        if classes[issues.len() - 1] is AutoCreate {
            init.push(issues.last())
        } else {
            init
        }
    }
}

/// The matched issues that emit an update, each with its task, in listing order.
pub open spec fn update_pairs(
    issues: Seq<GhIssue>,
    classes: Seq<Classification>,
    tasks: Seq<Task>,
    cfg: PluginConfig,
) -> Seq<(GhIssue, Task)>
    decreases issues.len(),
{
    if issues.len() == 0 {
        Seq::empty()
    } else {
        let init = update_pairs(issues.drop_last(), classes, tasks, cfg);
        match classes[issues.len() - 1] {
            Classification::KnownUpdate { task_id } => {
                let t = task_with_id(tasks, task_id@);
                if emits(issues.last(), t, cfg) {
                    init.push((issues.last(), t))
                } else {
                    init
                }
            },
            _ => init,
        }
    }
}

/// The numbers of the listed issues.
pub open spec fn numbers(issues: Seq<GhIssue>) -> Seq<u64> {
    issues.map_values(|i: GhIssue| i.number)
}

/// Whether `r` is the sync report of `issues` as `classes` classify them,
/// stamped `synced_at`.
pub open spec fn report_ok(
    issues: Seq<GhIssue>,
    classes: Seq<Classification>,
    tasks: Seq<Task>,
    cfg: PluginConfig,
    synced_at: Seq<char>,
    r: SyncReport,
) -> bool {
    let a = autos(issues, classes);
    let p = update_pairs(issues, classes, tasks, cfg);
    let c = candidates(tasks, numbers(issues), cfg);
    &&& r.created@.len() == if a.len() <= MAX_CREATES_PER_SYNC {
        a.len()
    } else {
        MAX_CREATES_PER_SYNC as nat
    }
    &&& forall|k: int| 0 <= k < r.created@.len() ==> created_ok(a[k], synced_at, #[trigger] r.created@[k])
    &&& r.updated@.len() == p.len() + if c.len() <= MAX_DELETES_PER_SYNC {
        c.len()
    } else {
        MAX_DELETES_PER_SYNC as nat
    }
    &&& forall|k: int|
        0 <= k < p.len() ==> update_ok(p[k].0, p[k].1, cfg, synced_at, #[trigger] r.updated@[k])
    &&& forall|k: int|
        p.len() <= k < r.updated@.len() ==> deleted_from_ok(
            c[k - p.len()],
            cfg,
            Some(#[trigger] r.updated@[k]),
        )
    &&& r.deleted@.len() == 0
}

/// The first index of a task with id `id`.
fn find_task(tasks: &Vec<Task>, id: &str) -> (r: Option<usize>)
    ensures
        match r {
            Some(j) => first_with_id(tasks@, id@, j as int),
            None => !has_task(tasks@, id@),
        },
{
    let mut i: usize = 0;
    while i < tasks.len()
        invariant
            i <= tasks.len(),
            forall|k: int| 0 <= k < i ==> tasks@[k].id@ != id@,
        decreases tasks.len() - i,
    {
        if str_eq(tasks[i].id.as_str(), id) {
            return Some(i);
        }
        i += 1;
    }
    None
}

proof fn lemma_first_with_id_unique(tasks: Seq<Task>, id: Seq<char>, j: int)
    requires
        first_with_id(tasks, id, j),
    ensures
        task_with_id(tasks, id) == tasks[j],
{
    let c = choose|k: int| first_with_id(tasks, id, k);
    assert(first_with_id(tasks, id, c));
    if c < j {
        assert(tasks[c].id@ != id);
    } else if j < c {
        assert(tasks[j].id@ != id);
    }
}

/// The sync report for the listed `issues`, classified one for one by
/// `classes`, stamped with the sync time `synced_at`: the updates of the
/// matched issues in listing order, then the external-delete flips (at most
/// [`MAX_DELETES_PER_SYNC`]); the auto-created tasks, at most
/// [`MAX_CREATES_PER_SYNC`]; nothing deleted.
pub fn sync_report_at(
    issues: &Vec<GhIssue>,
    classes: &Vec<Classification>,
    tasks: &Vec<Task>,
    config: &PluginConfig,
    synced_at: String,
) -> (r: SyncReport)
    requires
        classes@.len() == issues@.len(),
        forall|k: int|
            0 <= k < classes@.len() ==> (#[trigger] classes@[k] matches Classification::KnownUpdate {
                task_id,
            } ==> has_task(tasks@, task_id@)),
    ensures
        report_ok(issues@, classes@, tasks@, *config, synced_at@, r),
{
    let mut created: Vec<SyncCreate> = Vec::new();
    let mut updated: Vec<SyncUpdate> = Vec::new();
    let mut i: usize = 0;
    while i < issues.len()
        invariant
            i <= issues.len(),
            classes@.len() == issues@.len(),
            forall|k: int|
                0 <= k < classes@.len() ==> (#[trigger] classes@[k] matches Classification::KnownUpdate {
                    task_id,
                } ==> has_task(tasks@, task_id@)),
            ({
                let a = autos(issues@.take(i as int), classes@);
                &&& created@.len() == if a.len() <= MAX_CREATES_PER_SYNC {
                    a.len()
                } else {
                    MAX_CREATES_PER_SYNC as nat
                }
                &&& forall|k: int|
                    0 <= k < created@.len() ==> created_ok(a[k], synced_at@, #[trigger] created@[k])
            }),
            updated@.len() == update_pairs(issues@.take(i as int), classes@, tasks@, *config).len(),
            forall|k: int|
                0 <= k < updated@.len() ==> {
                    let p = update_pairs(issues@.take(i as int), classes@, tasks@, *config);
                    update_ok(p[k].0, p[k].1, *config, synced_at@, #[trigger] updated@[k])
                },
        decreases issues.len() - i,
    {
        let ghost pre = issues@.take(i as int);
        let ghost post = issues@.take(i + 1);
        assert(post.drop_last() == pre);
        assert(post.last() == issues@[i as int]);
        assert(post.len() - 1 == i);
        let ghost created_before = created@;
        let ghost updated_before = updated@;
        let issue = &issues[i];
        match &classes[i] {
            Classification::KnownUpdate { task_id } => {
                assert(has_task(tasks@, task_id@));
                match find_task(tasks, task_id.as_str()) {
                    Some(j) => {
                        proof {
                            lemma_first_with_id_unique(tasks@, task_id@, j as int);
                        }
                        match updated_from_at(issue, &tasks[j], config, synced_at.clone()) {
                            Some(u) => {
                                updated.push(u);
                            },
                            None => {},
                        }
                    },
                    None => {},
                }
            },
            Classification::AutoCreate => {
                if created.len() < MAX_CREATES_PER_SYNC {
                    created.push(created_from_at(issue, synced_at.clone()));
                }
            },
            _ => {},
        }
        proof {
            let a = autos(post, classes@);
            let p = update_pairs(post, classes@, tasks@, *config);
            assert forall|k: int| 0 <= k < created@.len() implies created_ok(
                a[k],
                synced_at@,
                #[trigger] created@[k],
            ) by {
                if k < created_before.len() {
                    assert(created@[k] == created_before[k]);
                }
            }
            assert forall|k: int| 0 <= k < updated@.len() implies update_ok(
                p[k].0,
                p[k].1,
                *config,
                synced_at@,
                #[trigger] updated@[k],
            ) by {
                if k < updated_before.len() {
                    assert(updated@[k] == updated_before[k]);
                }
            }
        }
        i += 1;
    }
    proof {
        assert(issues@.take(issues@.len() as int) == issues@);
    }
    let known = known_numbers(issues);
    assert(known@ == numbers(issues@));
    let deletes = sweep_deletes(tasks, &known, config, MAX_DELETES_PER_SYNC);
    let mut deletes = deletes;
    updated.append(&mut deletes);
    SyncReport { created, updated, deleted: Vec::new() }
}

/// The sync report stamped with the current time; every part but the sync
/// time is as [`sync_report_at`] says.
pub fn sync_report(
    issues: &Vec<GhIssue>,
    classes: &Vec<Classification>,
    tasks: &Vec<Task>,
    config: &PluginConfig,
) -> (r: SyncReport)
    requires
        classes@.len() == issues@.len(),
        forall|k: int|
            0 <= k < classes@.len() ==> (#[trigger] classes@[k] matches Classification::KnownUpdate {
                task_id,
            } ==> has_task(tasks@, task_id@)),
    ensures
        exists|t: Seq<char>| report_ok(issues@, classes@, tasks@, *config, t, r),
{
    let at = now_rfc3339();
    let ghost t = at@;
    let r = sync_report_at(issues, classes, tasks, config, at);
    assert(report_ok(issues@, classes@, tasks@, *config, t, r));
    r
}

} // verus!
