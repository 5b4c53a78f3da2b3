//! The single update a matched GitHub issue yields: the close mirror, the
//! title and body mirrors, and a projection refreshed on every emit so the
//! next sync sees what this one observed.

use vstd::prelude::*;
use crate::config::{CloseMirror, PluginConfig};
use crate::content::body_hash_spec;
use crate::error::{debug_quoted, debug_str};
use crate::issues_api::{body_or_empty, GhIssue};
use crate::marker::opt_view;
use crate::pull_content::{
    body_hash, decide_body, decide_title, decision_spec, marked, pushed_title, strip_marker,
    strip_marker_spec, FieldDecision,
};
use crate::pull_emit::{
    bound_body, bound_body_spec, close_mirror_tag_spec, created_ok, now_rfc3339,
};
use crate::types::SyncCreate;
use crate::text::{chars_of, decimal, decimal_chars, extend, lit, str_eq, string_of};
use crate::types::{ProjectionBlob, SyncUpdate, Task, UpdateFields};

verus! {

broadcast use vstd::string::group_string_axioms;

/// Whether the close mirror fires: the policy lets closes in, GitHub closed
/// the issue, and the task is not closed yet.
pub open spec fn close_emitted(issue: GhIssue, task: Task, cfg: PluginConfig) -> bool {
    cfg.close_mirror != CloseMirror::Off && issue.state@ == "closed"@ && task.status@ != "closed"@
}

/// The title recorded at the last sync, if the projection has one.
pub open spec fn last_title(task: Task) -> Option<Seq<char>> {
    match task.issue {
        Some(p) => opt_view(p.last_synced_title),
        None => None,
    }
}

/// The body hash recorded at the last sync, if the projection has one.
pub open spec fn last_hash(task: Task) -> Option<Seq<char>> {
    match task.issue {
        Some(p) => opt_view(p.last_synced_body_hash),
        None => None,
    }
}

/// The title decision; a projection without a recorded title cannot tell who
/// moved, so nothing is mirrored.
pub open spec fn title_decision(issue: GhIssue, task: Task) -> FieldDecision {
    match last_title(task) {
        None => FieldDecision::Noop,
        Some(l) => decision_spec(issue.title@ != l, marked(task.title@, task.id@) != l),
    }
}

/// The body decision, by hash; none without a recorded hash.
pub open spec fn body_decision(issue: GhIssue, task: Task) -> FieldDecision {
    match last_hash(task) {
        None => FieldDecision::Noop,
        Some(h) => decision_spec(
            body_hash_spec(body_or_empty(issue.body)) != h,
            body_hash_spec(task.description@) != h,
        ),
    }
}

/// `GH issue #<n>`.
pub open spec fn issue_tag(n: u64) -> Seq<char> {
    "GH issue #"@ + decimal(n as nat)
}

/// The note of a mirrored close.
pub open spec fn close_note(issue: GhIssue, cfg: PluginConfig) -> Seq<char> {
    issue_tag(issue.number) + " closed externally (close_mirror="@ + close_mirror_tag_spec(
        cfg.close_mirror,
    ) + ")"@
}

/// The note the title decision leaves, if any.
pub open spec fn title_note(issue: GhIssue, task: Task) -> Option<Seq<char>> {
    match title_decision(issue, task) {
        FieldDecision::Noop => None,
        FieldDecision::Mirror => Some(
            issue_tag(issue.number) + " title mirrored from GH (was "@ + debug_str(
                last_title(task).unwrap(),
            ) + ")"@,
        ),
        FieldDecision::Conflict => Some(
            issue_tag(issue.number) + " title conflict: GH="@ + debug_str(issue.title@)
                + ", balls="@ + debug_str(marked(task.title@, task.id@))
                + " — leaving balls title (balls wins per merge contract)"@,
        ),
    }
}

/// The note the body decision leaves, if any.
pub open spec fn body_note(issue: GhIssue, task: Task) -> Option<Seq<char>> {
    match body_decision(issue, task) {
        FieldDecision::Noop => None,
        FieldDecision::Mirror => Some(issue_tag(issue.number) + " body mirrored from GH"@),
        FieldDecision::Conflict => Some(
            issue_tag(issue.number)
                + " body conflict — leaving balls description (balls wins per merge contract)"@,
        ),
    }
}

/// `acc` with `line` appended on a line of its own.
pub open spec fn join_line(acc: Seq<char>, line: Option<Seq<char>>) -> Seq<char> {
    match line {
        None => acc,
        Some(l) => if acc.len() == 0 {
            l
        } else {
            acc + "\n"@ + l
        },
    }
}

/// The notes of an update, one per line: close, then title, then body.
pub open spec fn update_note(issue: GhIssue, task: Task, cfg: PluginConfig) -> Seq<char> {
    let c = if close_emitted(issue, task, cfg) {
        Some(close_note(issue, cfg))
    } else {
        None
    };
    join_line(join_line(join_line(Seq::empty(), c), title_note(issue, task)), body_note(issue, task))
}

/// The description a mirrored GitHub body becomes: the body cut to the byte
/// cap, with the truncation note when it was cut.
pub open spec fn mirrored_body(body: Seq<char>) -> Seq<char> {
    let (d, cut) = bound_body_spec(body);
    if cut {
        d + "\n\n[issues plugin: body truncated to 65536 bytes by ingest defense]"@
    } else {
        d
    }
}

/// The task title after the update lands.
pub open spec fn new_title(issue: GhIssue, task: Task) -> Seq<char> {
    if title_decision(issue, task) == FieldDecision::Mirror {
        strip_marker_spec(issue.title@, task.id@)
    } else {
        task.title@
    }
}

/// The task description after the update lands.
pub open spec fn new_description(issue: GhIssue, task: Task) -> Seq<char> {
    if body_decision(issue, task) == FieldDecision::Mirror {
        mirrored_body(body_or_empty(issue.body))
    } else {
        task.description@
    }
}

/// The `source` the refreshed projection keeps: the recorded one, else `balls`.
pub open spec fn kept_source(task: Task) -> Seq<char> {
    match task.issue {
        Some(p) => match p.source {
            Some(s) => s@,
            None => "balls"@,
        },
        None => "balls"@,
    }
}

/// Whether anything is emitted for the issue at all.
pub open spec fn emits(issue: GhIssue, task: Task, cfg: PluginConfig) -> bool {
    close_emitted(issue, task, cfg) || title_decision(issue, task) != FieldDecision::Noop
        || body_decision(issue, task) != FieldDecision::Noop
}

/// Whether `u` is the update emitted for `issue` on `task` at `synced_at`.
pub open spec fn update_ok(
    issue: GhIssue,
    task: Task,
    cfg: PluginConfig,
    synced_at: Seq<char>,
    u: SyncUpdate,
) -> bool {
    &&& u.task_id@ == task.id@
    &&& opt_view(u.fields.status) == if close_emitted(issue, task, cfg) {
        Some("closed"@)
    } else {
        None
    }
    &&& opt_view(u.fields.title) == if title_decision(issue, task) == FieldDecision::Mirror {
        Some(strip_marker_spec(issue.title@, task.id@))
    } else {
        None
    }
    &&& opt_view(u.fields.description) == if body_decision(issue, task) == FieldDecision::Mirror {
        Some(mirrored_body(body_or_empty(issue.body)))
    } else {
        None
    }
    &&& u.add_note@ == update_note(issue, task, cfg)
    &&& u.external matches Some(p) && {
        &&& p.number == issue.number
        &&& p.url@ == issue.html_url@
        &&& p.state@ == issue.state@
        &&& p.source@ == kept_source(task)
        &&& p.synced_at@ == synced_at
        &&& p.last_synced_status@ == if close_emitted(issue, task, cfg) {
            "closed"@
        } else {
            task.status@
        }
        &&& opt_view(p.last_synced_title) == Some(marked(new_title(issue, task), task.id@))
        &&& opt_view(p.last_synced_body_hash) == Some(
            body_hash_spec(new_description(issue, task)),
        )
    }
}

/// Append `line` to `acc` on a line of its own.
fn add_line(acc: &mut Vec<char>, line: &Vec<char>)
    ensures
        final(acc)@ == join_line(old(acc)@, Some(line@)),
{
    let ghost before = acc@;
    if acc.len() > 0 {
        acc.push('\n');
        proof {
            reveal_strlit("\n");
            assert(acc@ == before + "\n"@);
        }
    }
    extend(acc, line);
    proof {
        if before.len() > 0 {
            assert(acc@ == before + "\n"@ + line@);
        } else {
            assert(acc@ == line@);
        }
    }
}

fn issue_tag_chars(n: u64) -> (r: Vec<char>)
    ensures
        r@ == issue_tag(n),
{
    let mut v = chars_of("GH issue #");
    extend(&mut v, &decimal_chars(n));
    v
}

/// The close-mirror step: when it fires, the status field and its note.
fn apply_close_mirror(issue: &GhIssue, task: &Task, config: &PluginConfig, note: &mut Vec<char>) -> (r:
    bool)
    ensures
        r == close_emitted(*issue, *task, *config),
        final(note)@ == if r {
            join_line(old(note)@, Some(close_note(*issue, *config)))
        } else {
            old(note)@
        },
{
    if config.close_mirror == CloseMirror::Off {
        return false;
    }
    if !str_eq(issue.state.as_str(), "closed") || str_eq(task.status.as_str(), "closed") {
        return false;
    }
    let mut line = issue_tag_chars(issue.number);
    extend(&mut line, &chars_of(" closed externally (close_mirror="));
    extend(&mut line, &chars_of(crate::pull_emit::close_mirror_tag(config.close_mirror)));
    extend(&mut line, &chars_of(")"));
    add_line(note, &line);
    true
}

/// The title-mirror step: the mirrored title, if any, with its note.
fn apply_title_mirror(issue: &GhIssue, task: &Task, note: &mut Vec<char>) -> (r: Option<String>)
    ensures
        opt_view(r) == if title_decision(*issue, *task) == FieldDecision::Mirror {
            Some(strip_marker_spec(issue.title@, task.id@))
        } else {
            None
        },
        final(note)@ == join_line(old(note)@, title_note(*issue, *task)),
{
    let last = match task.last_synced_title() {
        Some(l) => l,
        None => {
            return None;
        },
    };
    match decide_title(issue, task, last.as_str()) {
        FieldDecision::Noop => None,
        FieldDecision::Mirror => {
            let mut line = issue_tag_chars(issue.number);
            extend(&mut line, &chars_of(" title mirrored from GH (was "));
            extend(&mut line, &chars_of(debug_quoted(last.as_str()).as_str()));
            extend(&mut line, &chars_of(")"));
            add_line(note, &line);
            Some(strip_marker(issue.title.as_str(), task.id.as_str()))
        },
        FieldDecision::Conflict => {
            let mut line = issue_tag_chars(issue.number);
            extend(&mut line, &chars_of(" title conflict: GH="));
            extend(&mut line, &chars_of(debug_quoted(issue.title.as_str()).as_str()));
            extend(&mut line, &chars_of(", balls="));
            extend(&mut line, &chars_of(debug_quoted(pushed_title(task).as_str()).as_str()));
            extend(
                &mut line,
                &chars_of(" — leaving balls title (balls wins per merge contract)"),
            );
            add_line(note, &line);
            None
        },
    }
}

/// The body-mirror step: the mirrored description, if any, with its note.
fn apply_body_mirror(issue: &GhIssue, task: &Task, note: &mut Vec<char>) -> (r: Option<String>)
    ensures
        opt_view(r) == if body_decision(*issue, *task) == FieldDecision::Mirror {
            Some(mirrored_body(body_or_empty(issue.body)))
        } else {
            None
        },
        final(note)@ == join_line(old(note)@, body_note(*issue, *task)),
{
    let last = match task.last_synced_body_hash() {
        Some(l) => l,
        None => {
            return None;
        },
    };
    match decide_body(issue, task, last.as_str()) {
        FieldDecision::Noop => None,
        FieldDecision::Mirror => {
            let (bounded, truncated) = bound_body(issue.body_str());
            let mut text = chars_of(bounded.as_str());
            if truncated {
                extend(
                    &mut text,
                    &chars_of("\n\n[issues plugin: body truncated to 65536 bytes by ingest defense]"),
                );
            }
            let mut line = issue_tag_chars(issue.number);
            extend(&mut line, &chars_of(" body mirrored from GH"));
            add_line(note, &line);
            Some(string_of(&text))
        },
        FieldDecision::Conflict => {
            let mut line = issue_tag_chars(issue.number);
            extend(
                &mut line,
                &chars_of(" body conflict — leaving balls description (balls wins per merge contract)"),
            );
            add_line(note, &line);
            None
        },
    }
}

/// The update for a matched issue, stamped with the sync time `synced_at`:
/// none when nothing moved; else the close, title and body mirrors that fire,
/// their notes, and the projection rebuilt from what this sync observed.
pub fn updated_from_at(issue: &GhIssue, task: &Task, config: &PluginConfig, synced_at: String) -> (r:
    Option<SyncUpdate>)
    ensures
        !emits(*issue, *task, *config) ==> r is None,
        emits(*issue, *task, *config) ==> (r matches Some(u) && update_ok(
            *issue,
            *task,
            *config,
            synced_at@,
            u,
        )),
{
    let mut note: Vec<char> = Vec::new();
    let close = apply_close_mirror(issue, task, config, &mut note);
    let title = apply_title_mirror(issue, task, &mut note);
    let description = apply_body_mirror(issue, task, &mut note);
    proof {
        reveal_strlit("GH issue #");
        lemma_join_line_grows(Seq::empty(), if close {
            Some(close_note(*issue, *config))
        } else {
            None
        }, title_note(*issue, *task), body_note(*issue, *task));
    }
    if note.len() == 0 && title.is_none() && description.is_none() && !close {
        return None;
    }
    let status = if close {
        lit("closed")
    } else {
        task.status.clone()
    };
    let cur_title = match &title {
        Some(t) => t.clone(),
        None => task.title.clone(),
    };
    let cur_description = match &description {
        Some(d) => d.clone(),
        None => task.description.clone(),
    };
    let mut marked_title = chars_of(cur_title.as_str());
    extend(&mut marked_title, &chars_of(" ["));
    extend(&mut marked_title, &chars_of(task.id.as_str()));
    extend(&mut marked_title, &chars_of("]"));
    let source = match &task.issue {
        Some(p) => match &p.source {
            Some(s) => s.clone(),
            None => lit("balls"),
        },
        None => lit("balls"),
    };
    let external = ProjectionBlob {
        number: issue.number,
        url: issue.html_url.clone(),
        state: issue.state.clone(),
        source,
        synced_at,
        last_synced_status: status,
        last_synced_title: Some(string_of(&marked_title)),
        last_synced_body_hash: Some(body_hash(cur_description.as_str())),
    };
    Some(
        SyncUpdate {
            task_id: task.id.clone(),
            fields: UpdateFields {
                status: if close {
                    Some(lit("closed"))
                } else {
                    None
                },
                title,
                description,
            },
            external: Some(external),
            add_note: string_of(&note),
        },
    )
}

/// The update for a matched issue, stamped with the current time; every part
/// but the sync time is as [`updated_from_at`] says.
pub fn updated_from(issue: &GhIssue, task: &Task, config: &PluginConfig) -> (r: Option<SyncUpdate>)
    ensures
        !emits(*issue, *task, *config) ==> r is None,
        emits(*issue, *task, *config) ==> (r matches Some(u) && exists|t: Seq<char>|
            update_ok(*issue, *task, *config, t, u)),
{
    let at = now_rfc3339();
    let r = updated_from_at(issue, task, config, at);
    proof {
        if emits(*issue, *task, *config) {
            let u = r.unwrap();
            assert(update_ok(*issue, *task, *config, at@, u));
        }
    }
    r
}

/// A joined note is empty only when no line went in.
proof fn lemma_join_line_grows(
    acc: Seq<char>,
    a: Option<Seq<char>>,
    b: Option<Seq<char>>,
    c: Option<Seq<char>>,
)
    requires
        acc.len() == 0,
        a matches Some(l) ==> l.len() > 0,
        b matches Some(l) ==> l.len() > 0,
        c matches Some(l) ==> l.len() > 0,
    ensures
        join_line(join_line(join_line(acc, a), b), c).len() == 0 <==> (a is None && b is None
            && c is None),
{
}

/// Whether `t2` is `task` after `u` lands: the fields `u` sets replace the
/// task's, and its projection is the one `u` carries.
pub open spec fn applied(task: Task, u: SyncUpdate, t2: Task) -> bool {
    &&& t2.id@ == task.id@
    &&& t2.status@ == match opt_view(u.fields.status) {
        Some(v) => v,
        None => task.status@,
    }
    &&& t2.title@ == match opt_view(u.fields.title) {
        Some(v) => v,
        None => task.title@,
    }
    &&& t2.description@ == match opt_view(u.fields.description) {
        Some(v) => v,
        None => task.description@,
    }
    &&& u.external matches Some(b) && t2.issue matches Some(p) && opt_view(p.last_synced_title)
        == opt_view(b.last_synced_title) && opt_view(p.last_synced_body_hash) == opt_view(
        b.last_synced_body_hash,
    )
}

/// Loop avoidance: once an emitted update has landed, and GitHub's title and
/// body are what the refreshed projection records, the next sync of the same
/// issue emits nothing.
pub proof fn law_landed_update_is_quiet(
    issue: GhIssue,
    task: Task,
    cfg: PluginConfig,
    synced_at: Seq<char>,
    u: SyncUpdate,
    t2: Task,
)
    requires
        update_ok(issue, task, cfg, synced_at, u),
        applied(task, u, t2),
        issue.title@ == marked(new_title(issue, task), task.id@),
        body_hash_spec(body_or_empty(issue.body)) == body_hash_spec(new_description(issue, task)),
    ensures
        !emits(issue, t2, cfg),
{
    assert(t2.title@ == new_title(issue, task));
    assert(t2.description@ == new_description(issue, task));
    assert(last_title(t2) == Some(marked(new_title(issue, task), task.id@)));
    assert(last_hash(t2) == Some(body_hash_spec(new_description(issue, task))));
}

/// An auto-created task converges: once it lands with the created status and
/// a projection that records no title or body yet, the next sync of the same
/// issue emits nothing, closed or open.
pub proof fn law_created_task_is_quiet(
    issue: GhIssue,
    synced_at: Seq<char>,
    c: SyncCreate,
    t2: Task,
    cfg: PluginConfig,
)
    requires
        created_ok(issue, synced_at, c),
        t2.status@ == c.status@,
        last_title(t2) is None,
        last_hash(t2) is None,
    ensures
        !emits(issue, t2, cfg),
{
}

} // verus!
