//! Sync report entries built from classified GitHub issues: the inward close
//! mirror, auto-create with the ingest defenses, and the external-delete sweep.

use vstd::prelude::*;
use vstd::string::StringSliceAdditionalSpecFns;
use vstd::utf8::{decode_utf8, encode_utf8, is_char_boundary};
use crate::config::{CloseMirror, OnExternalDelete, PluginConfig};
use crate::issues_api::{body_or_empty, GhIssue, GhLabel};
use crate::pull::{cut_point, views};
use crate::text::{chars_of, decimal, decimal_chars, extend, lit, str_eq, string_of};
use crate::types::{ProjectionBlob, SyncCreate, SyncUpdate, Task, UpdateFields};

verus! {

broadcast use vstd::string::group_string_axioms;

/// The per-issue body cap on auto-create.
pub const MAX_BODY_BYTES: usize = 65_536;

/// The per-issue label cap on auto-create.
pub const MAX_LABELS: usize = 100;

/// The most `created` entries one sync emits.
pub const MAX_CREATES_PER_SYNC: usize = 500;

/// The most delete-policy entries one sync emits.
pub const MAX_DELETES_PER_SYNC: usize = 500;

/// The current UTC time in RFC 3339 (`chrono::Utc::now().to_rfc3339()`).
/// Nothing is promised of its value: it is the clock.
#[verifier::external_body]
pub(crate) fn now_rfc3339() -> String {
    chrono::Utc::now().to_rfc3339()
}

/// The policy name of a close-mirror setting.
pub open spec fn close_mirror_tag_spec(m: CloseMirror) -> Seq<char> {
    match m {
        CloseMirror::Authoritative => "authoritative"@,
        CloseMirror::BestEffort => "best_effort"@,
        CloseMirror::Off => "off"@,
    }
}

/// The config spelling of a close-mirror setting.
pub fn close_mirror_tag(m: CloseMirror) -> (r: &'static str)
    ensures
        r@ == close_mirror_tag_spec(m),
{
    match m {
        CloseMirror::Authoritative => "authoritative",
        CloseMirror::BestEffort => "best_effort",
        CloseMirror::Off => "off",
    }
}

/// The policy name of an external-delete setting.
pub open spec fn on_external_delete_tag_spec(p: OnExternalDelete) -> Seq<char> {
    match p {
        OnExternalDelete::Deferred => "deferred"@,
        OnExternalDelete::Closed => "closed"@,
        OnExternalDelete::Noop => "noop"@,
    }
}

/// The config spelling of an external-delete setting.
pub fn on_external_delete_tag(p: OnExternalDelete) -> (r: &'static str)
    ensures
        r@ == on_external_delete_tag_spec(p),
{
    match p {
        OnExternalDelete::Deferred => "deferred",
        OnExternalDelete::Closed => "closed",
        OnExternalDelete::Noop => "noop",
    }
}

/// `body` cut to at most [`MAX_BODY_BYTES`] UTF-8 bytes at a char boundary.
pub open spec fn bound_body_spec(s: Seq<char>) -> (Seq<char>, bool) {
    let b = encode_utf8(s);
    if b.len() <= MAX_BODY_BYTES {
        (s, false)
    } else {
        (decode_utf8(b.take(cut_point(b, MAX_BODY_BYTES as int))), true)
    }
}

/// Cut `body` to the byte cap on a char boundary; the flag tells whether it was cut.
pub fn bound_body(body: &str) -> (r: (String, bool))
    ensures
        (r.0@, r.1) == bound_body_spec(body@),
{
    broadcast use vstd::utf8::encode_utf8_valid_utf8, vstd::utf8::encode_utf8_decode_utf8;

    let bytes = body.as_bytes();
    let ghost b = encode_utf8(body@);
    assert(bytes@ == b);
    if bytes.len() <= MAX_BODY_BYTES {
        return (body.to_owned(), false);
    }
    let mut idx: usize = MAX_BODY_BYTES;
    proof {
        vstd::utf8::is_char_boundary_start_end_of_seq(b);
    }
    while !body.is_char_boundary(idx) && idx > 0
        invariant
            idx <= MAX_BODY_BYTES,
            b == body.spec_bytes(),
            b.len() > MAX_BODY_BYTES,
            vstd::utf8::valid_utf8(b),
            is_char_boundary(b, 0),
            cut_point(b, idx as int) == cut_point(b, MAX_BODY_BYTES as int),
        decreases idx,
    {
        idx -= 1;
    }
    let (head, _) = body.split_at(idx);
    assert(head@ == decode_utf8(b.take(idx as int))) by {
        assert(decode_utf8(encode_utf8(head@)) == head@);
    }
    (head.to_owned(), true)
}

/// The first [`MAX_LABELS`] label names, and whether any were dropped.
pub fn bound_labels(labels: &Vec<GhLabel>) -> (r: (Vec<String>, bool))
    ensures
        r.0@.len() == if labels@.len() <= MAX_LABELS {
            labels@.len()
        } else {
            MAX_LABELS as nat
        },
        forall|i: int| 0 <= i < r.0@.len() ==> (#[trigger] r.0@[i])@ == labels@[i].name@,
        r.1 == (labels@.len() > MAX_LABELS),
{
    let mut kept: Vec<String> = Vec::new();
    let mut i: usize = 0;
    while i < labels.len() && i < MAX_LABELS
        invariant
            i <= labels.len(),
            i <= MAX_LABELS,
            kept@.len() == i,
            forall|j: int| 0 <= j < i ==> (#[trigger] kept@[j])@ == labels@[j].name@,
        decreases labels.len() - i,
    {
        kept.push(labels[i].name.clone());
        i += 1;
    }
    (kept, labels.len() > MAX_LABELS)
}

/// The close-mirror update of a task, if GitHub closed its issue and the
/// policy lets the close in.
pub fn updated_from(issue: &GhIssue, task: &Task, config: &PluginConfig) -> (r: Option<SyncUpdate>)
    ensures
        (config.close_mirror == CloseMirror::Off || issue.state@ != "closed"@ || task.status@
            == "closed"@) ==> r is None,
        !(config.close_mirror == CloseMirror::Off || issue.state@ != "closed"@ || task.status@
            == "closed"@) ==> (r matches Some(u) && u.task_id@ == task.id@ && opt_view_s(
            u.fields.status,
        ) == Some("closed"@) && u.fields.title is None && u.fields.description is None
            && u.external is None && u.add_note@ == "GH issue #"@ + decimal(issue.number as nat)
            + " closed externally (close_mirror="@ + close_mirror_tag_spec(config.close_mirror)
            + ")"@),
{
    if config.close_mirror == CloseMirror::Off {
        return None;
    }
    if !str_eq(issue.state.as_str(), "closed") {
        return None;
    }
    if str_eq(task.status.as_str(), "closed") {
        return None;
    }
    let mut note = chars_of("GH issue #");
    extend(&mut note, &decimal_chars(issue.number));
    extend(&mut note, &chars_of(" closed externally (close_mirror="));
    extend(&mut note, &chars_of(close_mirror_tag(config.close_mirror)));
    extend(&mut note, &chars_of(")"));
    Some(
        SyncUpdate {
            task_id: task.id.clone(),
            fields: UpdateFields { status: Some(lit("closed")), title: None, description: None },
            external: None,
            add_note: string_of(&note),
        },
    )
}

/// The view of an optional string (local alias).
pub open spec fn opt_view_s(o: Option<String>) -> Option<Seq<char>> {
    crate::marker::opt_view(o)
}

/// The note for a cut body.
pub open spec fn body_cut_note() -> Seq<char> {
    "[issues plugin: body truncated to 65536 bytes by ingest defense]"@
}

/// The note for a cut label set.
pub open spec fn labels_cut_note() -> Seq<char> {
    "[issues plugin: label set truncated to first 100 by ingest defense]"@
}

/// The description of an auto-created task: the bounded body, then a blank
/// line and the cut notes, one per line, when anything was cut.
pub open spec fn created_description(body: Seq<char>, labels_cut: bool) -> Seq<char> {
    let (d, body_cut) = bound_body_spec(body);
    if !body_cut && !labels_cut {
        d
    } else if body_cut && !labels_cut {
        d + "\n\n"@ + body_cut_note()
    } else if !body_cut && labels_cut {
        d + "\n\n"@ + labels_cut_note()
    } else {
        d + "\n\n"@ + body_cut_note() + "\n"@ + labels_cut_note()
    }
}

/// The task status an issue's state maps to on auto-create.
pub open spec fn created_status(state: Seq<char>) -> Seq<char> {
    if state == "closed"@ {
        "closed"@
    } else {
        "open"@
    }
}

/// Whether `r` is the task created for `issue` at `synced_at`: its title,
/// the mapped status, the bounded description with its cut notes, the first
/// labels as tags, and a projection of the issue whose source is `github`.
pub open spec fn created_ok(issue: GhIssue, synced_at: Seq<char>, r: SyncCreate) -> bool {
    &&& r.title@ == issue.title@
    &&& r.task_type@ == "task"@
    &&& r.priority == 3
    &&& r.status@ == created_status(issue.state@)
    &&& r.description@ == created_description(
        body_or_empty(issue.body),
        issue.labels@.len() > MAX_LABELS,
    )
    &&& r.tags@.len() == if issue.labels@.len() <= MAX_LABELS {
        issue.labels@.len()
    } else {
        MAX_LABELS as nat
    }
    &&& forall|i: int| 0 <= i < r.tags@.len() ==> (#[trigger] r.tags@[i])@ == issue.labels@[i].name@
    &&& r.external.number == issue.number
    &&& r.external.url@ == issue.html_url@
    &&& r.external.state@ == issue.state@
    &&& r.external.source@ == "github"@
    &&& r.external.synced_at@ == synced_at
    &&& r.external.last_synced_status@ == created_status(issue.state@)
    &&& r.external.last_synced_title is None
    &&& r.external.last_synced_body_hash is None
}

/// Build the task to create for an unmatched GitHub issue, stamped with the
/// sync time `synced_at`. A closed issue yields a closed task.
pub fn created_from_at(issue: &GhIssue, synced_at: String) -> (r: SyncCreate)
    ensures
        created_ok(*issue, synced_at@, r),
{
    let (description, body_cut) = bound_body(issue.body_str());
    let (tags, labels_cut) = bound_labels(&issue.labels);
    let mut d = chars_of(description.as_str());
    if body_cut || labels_cut {
        extend(&mut d, &chars_of("\n\n"));
        if body_cut {
            extend(&mut d, &chars_of("[issues plugin: body truncated to 65536 bytes by ingest defense]"));
        }
        if body_cut && labels_cut {
            extend(&mut d, &chars_of("\n"));
        }
        if labels_cut {
            extend(
                &mut d,
                &chars_of("[issues plugin: label set truncated to first 100 by ingest defense]"),
            );
        }
    }
    let status = if issue.is_closed() {
        lit("closed")
    } else {
        lit("open")
    };
    let external = ProjectionBlob {
        number: issue.number,
        url: issue.html_url.clone(),
        state: issue.state.clone(),
        source: lit("github"),
        synced_at,
        last_synced_status: status.clone(),
        last_synced_title: None,
        last_synced_body_hash: None,
    };
    SyncCreate {
        title: issue.title.clone(),
        task_type: lit("task"),
        priority: 3,
        status,
        description: string_of(&d),
        tags,
        external,
    }
}

/// Build the task to create for an unmatched GitHub issue, stamped with the
/// current time. Every field but the sync time is as [`created_from_at`] says.
pub fn created_from(issue: &GhIssue) -> (r: SyncCreate)
    ensures
        exists|t: Seq<char>| created_ok(*issue, t, r),
{
    let at = now_rfc3339();
    let r = created_from_at(issue, at);
    assert(created_ok(*issue, at@, r));
    r
}

/// The status an external delete moves a task to, if any.
pub open spec fn delete_target(p: OnExternalDelete) -> Option<Seq<char>> {
    match p {
        OnExternalDelete::Noop => None,
        OnExternalDelete::Deferred => Some("deferred"@),
        OnExternalDelete::Closed => Some("closed"@),
    }
}

/// Whether `r` is the delete update of `task` under `cfg`: none for a closed
/// task, a noop policy, a task already at the target status, or a task never
/// mirrored; else the status flip with its note.
pub open spec fn deleted_from_ok(task: Task, cfg: PluginConfig, r: Option<SyncUpdate>) -> bool {
    let number = match task.issue {
        Some(p) => p.number,
        None => None,
    };
    if task.status@ == "closed"@ {
        r is None
    } else {
        match delete_target(cfg.on_external_delete) {
            None => r is None,
            Some(t) => if task.status@ == t || number is None {
                r is None
            } else {
                r matches Some(u) && u.task_id@ == task.id@ && opt_view_s(u.fields.status)
                    == Some(t) && u.fields.title is None && u.fields.description is None
                    && u.external is None && u.add_note@ == "GH issue #"@ + decimal(
                    number.unwrap() as nat,
                ) + " no longer found in repo (on_external_delete="@
                    + on_external_delete_tag_spec(cfg.on_external_delete) + ")"@
            },
        }
    }
}

/// The update for a mirrored task whose issue vanished from the repo: its
/// status flips per `on_external_delete`. Finished work is never revived:
/// a closed task is left alone whatever the policy.
pub fn deleted_from(task: &Task, config: &PluginConfig) -> (r: Option<SyncUpdate>)
    ensures
        deleted_from_ok(*task, *config, r),
{
    if str_eq(task.status.as_str(), "closed") {
        return None;
    }
    let target = match config.on_external_delete {
        OnExternalDelete::Noop => {
            return None;
        },
        OnExternalDelete::Deferred => "deferred",
        OnExternalDelete::Closed => "closed",
    };
    if str_eq(task.status.as_str(), target) {
        return None;
    }
    let number = match task.issue_number() {
        Some(n) => n,
        None => {
            return None;
        },
    };
    let mut note = chars_of("GH issue #");
    extend(&mut note, &decimal_chars(number));
    extend(&mut note, &chars_of(" no longer found in repo (on_external_delete="));
    extend(&mut note, &chars_of(on_external_delete_tag(config.on_external_delete)));
    extend(&mut note, &chars_of(")"));
    Some(
        SyncUpdate {
            task_id: task.id.clone(),
            fields: UpdateFields { status: Some(lit(target)), title: None, description: None },
            external: None,
            add_note: string_of(&note),
        },
    )
}

/// Whether a task's mirrored issue vanished and the task gets a delete update.
pub open spec fn delete_candidate(task: Task, known: Seq<u64>, cfg: PluginConfig) -> bool {
    let number = match task.issue {
        Some(p) => p.number,
        None => None,
    };
    number matches Some(n) && !known.contains(n) && (exists|u: SyncUpdate|
        deleted_from_ok(task, cfg, Some(u)))
}

/// The delete candidates among `tasks`, in order.
pub open spec fn candidates(tasks: Seq<Task>, known: Seq<u64>, cfg: PluginConfig) -> Seq<Task>
    decreases tasks.len(),
{
    if tasks.len() == 0 {
        Seq::empty()
    } else {
        let init = candidates(tasks.drop_last(), known, cfg);
        if delete_candidate(tasks.last(), known, cfg) {
            init.push(tasks.last())
        } else {
            init
        }
    }
}

fn contains_number(known: &Vec<u64>, n: u64) -> (r: bool)
    ensures
        r == known@.contains(n),
{
    for i in 0..known.len()
        invariant
            forall|j: int| 0 <= j < i ==> known@[j] != n,
    {
        if known[i] == n {
            return true;
        }
    }
    false
}

/// Sweep `tasks` for mirrored issues absent from `known` and emit the delete
/// updates in task order, at most `max_emits` of them.
pub fn sweep_deletes(tasks: &Vec<Task>, known: &Vec<u64>, config: &PluginConfig, max_emits: usize) -> (r:
    Vec<SyncUpdate>)
    ensures
        ({
            let c = candidates(tasks@, known@, *config);
            &&& r@.len() == if c.len() <= max_emits {
                c.len()
            } else {
                max_emits as nat
            }
            &&& forall|k: int| 0 <= k < r@.len() ==> deleted_from_ok(c[k], *config, Some(#[trigger] r@[k]))
        }),
{
    let mut out: Vec<SyncUpdate> = Vec::new();
    let mut i: usize = 0;
    while i < tasks.len() && out.len() < max_emits
        invariant
            i <= tasks.len(),
            out@.len() <= max_emits,
            out@.len() == candidates(tasks@.take(i as int), known@, *config).len(),
            forall|k: int|
                0 <= k < out@.len() ==> deleted_from_ok(
                    candidates(tasks@.take(i as int), known@, *config)[k],
                    *config,
                    Some(#[trigger] out@[k]),
                ),
        decreases tasks.len() - i,
    {
        let task = &tasks[i];
        assert(tasks@.take(i + 1).drop_last() == tasks@.take(i as int));
        assert(tasks@.take(i + 1).last() == tasks@[i as int]);
        let ghost before = out@;
        match task.issue_number() {
            Some(num) => {
                if !contains_number(known, num) {
                    match deleted_from(task, config) {
                        Some(upd) => {
                            out.push(upd);
                        },
                        None => {},
                    }
                }
            },
            None => {},
        }
        proof {
            let c = candidates(tasks@.take(i + 1), known@, *config);
            if out@.len() > before.len() {
                assert(delete_candidate(tasks@[i as int], known@, *config));
                assert(c == candidates(tasks@.take(i as int), known@, *config).push(
                    tasks@[i as int],
                ));
                assert forall|k: int| 0 <= k < out@.len() implies deleted_from_ok(
                    c[k],
                    *config,
                    Some(#[trigger] out@[k]),
                ) by {
                    if k < before.len() {
                        assert(out@[k] == before[k]);
                    }
                }
            } else {
                if delete_candidate(tasks@[i as int], known@, *config) {
                    let u = choose|u: SyncUpdate| deleted_from_ok(tasks@[i as int], *config, Some(u));
                    assert(false);
                }
            }
        }
        i += 1;
    }
    proof {
        lemma_candidates_prefix(tasks@, known@, *config, i as int);
        if i == tasks.len() {
            assert(tasks@.take(i as int) == tasks@);
        }
    }
    out
}

/// The candidates of a prefix of `tasks` are a prefix of its candidates.
proof fn lemma_candidates_prefix(tasks: Seq<Task>, known: Seq<u64>, cfg: PluginConfig, i: int)
    requires
        0 <= i <= tasks.len(),
    ensures
        candidates(tasks.take(i), known, cfg).len() <= candidates(tasks, known, cfg).len(),
        forall|k: int|
            0 <= k < candidates(tasks.take(i), known, cfg).len() ==> #[trigger] candidates(
                tasks.take(i),
                known,
                cfg,
            )[k] == candidates(tasks, known, cfg)[k],
    decreases tasks.len(),
{
    if i == tasks.len() {
        assert(tasks.take(i) == tasks);
    } else {
        let d = tasks.drop_last();
        lemma_candidates_prefix(d, known, cfg, i);
        assert(d.take(i) == tasks.take(i));
    }
}

/// A delete flip is idempotent: once the task sits at the status the flip set,
/// sweeping it again emits nothing.
pub proof fn law_delete_flip_is_idempotent(task: Task, cfg: PluginConfig, u: SyncUpdate, t2: Task)
    requires
        deleted_from_ok(task, cfg, Some(u)),
        opt_view_s(u.fields.status) == Some(t2.status@),
        t2.issue == task.issue,
    ensures
        deleted_from_ok(t2, cfg, None),
{
}

} // verus!
