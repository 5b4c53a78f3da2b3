//! Pull (GitHub → balls), the `sync` direction, as decisions over the listed
//! issues, the store, and the reconciliation base. Balls owns content; GitHub
//! owns only the close transition inward. The process edge lists the issues,
//! reads balls, shells `bl`, and makes the GitHub calls these decisions ask for.

use vstd::prelude::*;
use vstd::string::StringSliceAdditionalSpecFns;
use vstd::utf8::{decode_utf8, encode_utf8, is_char_boundary};
use crate::base::{key_lt, Base, Snapshot, SnapshotView};
use crate::config::{CloseMirror, OnExternalDelete, PluginConfig};
use crate::content::{body_hash, body_hash_spec, differs, differs_spec, mirror_close, mirror_close_spec};
use crate::issues_api::{body_or_empty, labels_contain, GhIssue, GhLabel, IssuePatch};
use crate::marker::{append, append_spec, is_id_spec, opt_view, strip, strip_spec};
use crate::push::{agreed, upsert_decision, UpsertDecision};
use crate::store::{Ball, BallView};
use crate::text::{chars_eq, chars_of, extend, lit, string_of};

verus! {

broadcast use vstd::string::group_string_axioms;

/// The cap on the bytes of a GitHub body ingested into a ball.
pub const MAX_BODY_BYTES: usize = 65_536;

/// The cap on the labels mirrored onto an auto-created task.
pub const MAX_LABELS: usize = 100;

/// The cap on auto-creates per sync.
pub const MAX_AUTOCREATES: usize = 500;

/// The note appended to a truncated body.
pub open spec fn truncation_note() -> Seq<char> {
    "\n\n[github-issues: body truncated by ingest defense]"@
}

/// The largest char boundary of `b` at or below `i`.
pub open spec fn cut_point(b: Seq<u8>, i: int) -> int
    decreases i,
{
    if i <= 0 {
        0
    } else if is_char_boundary(b, i) {
        i
    } else {
        cut_point(b, i - 1)
    }
}

/// A body capped at [`MAX_BODY_BYTES`] UTF-8 bytes: cut at the last char
/// boundary within the cap and marked, or unchanged when it fits.
pub open spec fn truncate_body_spec(s: Seq<char>) -> Seq<char> {
    let b = encode_utf8(s);
    if b.len() <= MAX_BODY_BYTES {
        s
    } else {
        decode_utf8(b.take(cut_point(b, MAX_BODY_BYTES as int))) + truncation_note()
    }
}

proof fn lemma_cut_point_shape(b: Seq<u8>, i: int)
    requires
        vstd::utf8::valid_utf8(b),
        i <= b.len(),
    ensures
        0 <= cut_point(b, i) <= (if i < 0 {
            0
        } else {
            i
        }),
        is_char_boundary(b, cut_point(b, i)),
    decreases i,
{
    vstd::utf8::is_char_boundary_start_end_of_seq(b);
    if i > 0 && !is_char_boundary(b, i) {
        lemma_cut_point_shape(b, i - 1);
    }
}

/// Truncate an ingested body to [`MAX_BODY_BYTES`] on a char boundary,
/// marking the cut. Applied to both sides of a comparison, so a long issue
/// never reads as drift.
pub fn truncate_body(body: &str) -> (r: String)
    ensures
        r@ == truncate_body_spec(body@),
{
    broadcast use vstd::utf8::encode_utf8_valid_utf8, vstd::utf8::encode_utf8_decode_utf8;

    let bytes = body.as_bytes();
    let ghost b = encode_utf8(body@);
    assert(bytes@ == b);
    if bytes.len() <= MAX_BODY_BYTES {
        return body.to_owned();
    }
    let mut end: usize = MAX_BODY_BYTES;
    proof {
        vstd::utf8::is_char_boundary_start_end_of_seq(b);
    }
    while !body.is_char_boundary(end)
        invariant
            end <= MAX_BODY_BYTES,
            b == body.spec_bytes(),
            b.len() > MAX_BODY_BYTES,
            vstd::utf8::valid_utf8(b),
            is_char_boundary(b, 0),
            cut_point(b, end as int) == cut_point(b, MAX_BODY_BYTES as int),
        decreases end,
    {
        end -= 1;
    }
    proof {
        lemma_cut_point_shape(b, end as int);
    }
    let (head, _) = body.split_at(end);
    assert(head.spec_bytes() == b.take(end as int));
    assert(head@ == decode_utf8(b.take(end as int))) by {
        assert(decode_utf8(encode_utf8(head@)) == head@);
    }
    let mut v = chars_of(head);
    extend(&mut v, &chars_of("\n\n[github-issues: body truncated by ingest defense]"));
    string_of(&v)
}

/// Whether an issue is in sync scope: no target label, or the issue carries it.
pub open spec fn in_scope_spec(issue: GhIssue, cfg: PluginConfig) -> bool {
    match cfg.target_label {
        None => true,
        Some(l) => labels_contain(issue.labels@, l@),
    }
}

/// Whether `issue` is in sync scope under `cfg`.
pub fn in_scope(issue: &GhIssue, cfg: &PluginConfig) -> (r: bool)
    ensures
        r == in_scope_spec(*issue, *cfg),
{
    match &cfg.target_label {
        None => true,
        Some(l) => issue.has_label(l.as_str()),
    }
}

/// How a listed issue joins a ball.
#[derive(Debug, Clone)]
pub enum Link {
    /// Joined to ball `id`; `bare` is the marker-stripped title.
    Linked { id: String, bare: String },
    /// No marker and no base link: a candidate for auto-create.
    Unlinked { bare: String },
}

/// Join a listed issue to its ball: the title marker first, else the base's
/// reverse lookup by issue number (the least such id).
pub fn link_of(issue: &GhIssue, base: &Base) -> (r: Link)
    ensures
        match r {
            Link::Linked { id, bare } => {
                &&& bare@ == strip_spec(issue.title@).0
                &&& match strip_spec(issue.title@).1 {
                    Some(m) => id@ == m,
                    None => {
                        &&& base@.contains_key(id@)
                        &&& base@[id@].number == issue.number
                        &&& forall|k: Seq<char>|
                            #![trigger base@[k]]
                            base@.contains_key(k) && base@[k].number == issue.number ==> !key_lt(
                                k,
                                id@,
                            )
                    },
                }
            },
            Link::Unlinked { bare } => {
                &&& bare@ == strip_spec(issue.title@).0
                &&& strip_spec(issue.title@).1 is None
                &&& forall|k: Seq<char>|
                    #![trigger base@[k]]
                    base@.contains_key(k) ==> base@[k].number != issue.number
            },
        },
{
    let (bare, marker_id) = strip(issue.title.as_str());
    match marker_id {
        Some(id) => Link::Linked { id, bare },
        None => match base.id_for_number(issue.number) {
            Some(id) => Link::Linked { id, bare },
            None => Link::Unlinked { bare },
        },
    }
}

/// What reconciling a linked issue does.
#[derive(Debug, Clone)]
pub enum LinkedPlan {
    /// The ball is gone: close the issue if it is still open, forget the link.
    Gone { close_issue: bool },
    /// GitHub closed the issue: close the task, forget the link.
    CloseTask,
    /// Keep the link: re-assert balls' content if GitHub drifted, then record
    /// the agreed snapshot.
    Keep { reassert: Option<IssuePatch>, snapshot: Snapshot },
}

/// Carry out the decision for a linked issue of ball `id` read as `ball`.
pub open spec fn linked_plan_ok(
    plan: LinkedPlan,
    id: Seq<char>,
    bare: Seq<char>,
    issue: GhIssue,
    ball: Option<BallView>,
    policy: CloseMirror,
) -> bool {
    let closed = issue.state@ == "closed"@;
    match ball {
        None => plan == LinkedPlan::Gone { close_issue: !closed },
        Some(b) => if mirror_close_spec(closed, true, policy) {
            plan == LinkedPlan::CloseTask
        } else {
            plan matches LinkedPlan::Keep { reassert, snapshot } && snapshot@ == agreed(
                issue.number,
                b,
                issue.state@,
            ) && if differs_spec(bare, truncate_body_spec(body_or_empty(issue.body)), b.title, b.body) {
                reassert matches Some(p) && opt_view(p.title) == Some(append_spec(b.title, id))
                    && opt_view(p.body) == Some(b.body) && p.state is None
            } else {
                reassert is None
            }
        },
    }
}

/// Decide what reconciling issue `issue`, linked to ball `id` (read from the
/// store as `ball`), does: a gone ball forgets the link (catching up the
/// outward close), a GitHub close closes the task unless the policy is `off`,
/// and otherwise balls' content is re-asserted when GitHub drifted.
pub fn plan_linked(id: &str, bare: &str, issue: &GhIssue, ball: Option<Ball>, cfg: &PluginConfig) -> (r:
    LinkedPlan)
    ensures
        linked_plan_ok(
            r,
            id@,
            bare@,
            *issue,
            match ball {
                Some(b) => Some(b@),
                None => None,
            },
            cfg.close_mirror,
        ),
{
    let ball = match ball {
        Some(b) => b,
        None => {
            return LinkedPlan::Gone { close_issue: !issue.is_closed() };
        },
    };
    if mirror_close(issue.is_closed(), true, cfg.close_mirror) {
        return LinkedPlan::CloseTask;
    }
    let gh_body = truncate_body(issue.body_str());
    let reassert = if differs(bare, gh_body.as_str(), ball.title.as_str(), ball.body.as_str()) {
        Some(
            IssuePatch {
                title: Some(append(ball.title.as_str(), id)),
                body: Some(ball.body.clone()),
                state: None,
            },
        )
    } else {
        None
    };
    let snapshot = Snapshot {
        number: issue.number,
        title: ball.title,
        body_hash: body_hash(ball.body.as_str()),
        state: issue.state.clone(),
    };
    LinkedPlan::Keep { reassert, snapshot }
}

/// Record the outcome of a linked reconcile in the base.
pub fn apply_linked(base: &mut Base, id: &str, plan: LinkedPlan)
    ensures
        match plan {
            LinkedPlan::Keep { snapshot, .. } => final(base)@ == old(base)@.insert(id@, snapshot@),
            _ => final(base)@ == old(base)@.remove(id@),
        },
{
    match plan {
        LinkedPlan::Keep { snapshot, .. } => base.set(id, snapshot),
        _ => base.remove(id),
    }
}

/// The label names of `labels`, in order, without `target`.
pub open spec fn kept_names(labels: Seq<GhLabel>, target: Option<Seq<char>>) -> Seq<Seq<char>>
    decreases labels.len(),
{
    if labels.len() == 0 {
        Seq::empty()
    } else {
        let init = kept_names(labels.drop_last(), target);
        if target == Some(labels.last().name@) {
            init
        } else {
            init.push(labels.last().name@)
        }
    }
}

/// At most the first [`MAX_LABELS`] of `s`.
pub open spec fn capped(s: Seq<Seq<char>>) -> Seq<Seq<char>> {
    if s.len() <= MAX_LABELS {
        s
    } else {
        s.take(MAX_LABELS as int)
    }
}

/// The views of a vector of strings.
pub open spec fn views(v: Seq<String>) -> Seq<Seq<char>> {
    v.map_values(|s: String| s@)
}

/// Label names mirrored onto an auto-created task: the target label is
/// dropped (it is a tracking marker, not a tag) and the list is capped.
pub fn labels_of(issue: &GhIssue, cfg: &PluginConfig) -> (r: Vec<String>)
    ensures
        views(r@) == capped(kept_names(issue.labels@, opt_view(cfg.target_label))),
{
    let ghost target = opt_view(cfg.target_label);
    let mut out: Vec<String> = Vec::new();
    for i in 0..issue.labels.len()
        invariant
            target == opt_view(cfg.target_label),
            views(out@) == capped(kept_names(issue.labels@.take(i as int), target)),
    {
        let ghost pre = kept_names(issue.labels@.take(i as int), target);
        assert(issue.labels@.take(i + 1).drop_last() == issue.labels@.take(i as int));
        let name = &issue.labels[i].name;
        let is_target = match &cfg.target_label {
            Some(t) => chars_eq(&chars_of(t.as_str()), &chars_of(name.as_str())),
            None => false,
        };
        let ghost before = out@;
        if !is_target && out.len() < MAX_LABELS {
            out.push(name.clone());
            assert(views(out@) == views(before).push(name@));
        }
        proof {
            let post = kept_names(issue.labels@.take(i + 1), target);
            if !is_target {
                assert(post == pre.push(name@));
                if pre.len() >= MAX_LABELS {
                    assert(capped(post) == capped(pre)) by {
                        assert(post.take(MAX_LABELS as int) == pre.take(MAX_LABELS as int));
                    }
                }
            } else {
                assert(post == pre);
            }
        }
    }
    assert(issue.labels@.take(issue.labels.len() as int) == issue.labels@);
    out
}

/// What reconciling an unlinked issue does.
#[derive(Debug, Clone)]
pub enum AutoPlan {
    /// A closed external issue is not imported as new work.
    Skip,
    /// The per-sync auto-create cap is reached; the issue waits for the next sync.
    CapReached,
    /// `bl create` a task with this title, body and tags, then stamp the marker.
    Create { title: String, body: String, labels: Vec<String> },
}

/// Decide whether an unlinked issue becomes a task: not when closed, not past
/// the cap; otherwise with its bare title, truncated body and kept labels.
pub fn plan_autocreate(bare: &str, issue: &GhIssue, cfg: &PluginConfig, created: usize) -> (r:
    AutoPlan)
    ensures
        issue.state@ == "closed"@ ==> r matches AutoPlan::Skip,
        issue.state@ != "closed"@ && created >= MAX_AUTOCREATES ==> r matches AutoPlan::CapReached,
        issue.state@ != "closed"@ && created < MAX_AUTOCREATES ==> (r matches AutoPlan::Create {
            title,
            body,
            labels,
        } && title@ == bare@ && body@ == truncate_body_spec(body_or_empty(issue.body)) && views(
            labels@,
        ) == capped(kept_names(issue.labels@, opt_view(cfg.target_label)))),
{
    if issue.is_closed() {
        return AutoPlan::Skip;
    }
    if created >= MAX_AUTOCREATES {
        return AutoPlan::CapReached;
    }
    AutoPlan::Create {
        title: lit(bare),
        body: truncate_body(issue.body_str()),
        labels: labels_of(issue, cfg),
    }
}

/// The PATCH that stamps the new ball's marker back onto its issue.
pub fn stamp_patch(bare: &str, id: &str) -> (r: IssuePatch)
    ensures
        opt_view(r.title) == Some(append_spec(bare@, id@)),
        r.body is None,
        r.state is None,
{
    IssuePatch { title: Some(append(bare, id)), body: None, state: None }
}

/// Record an auto-created ball `id` for `issue`, with the body it was given.
pub fn record_autocreate(
    base: &mut Base,
    created: &mut usize,
    id: &str,
    bare: &str,
    body: &str,
    issue: &GhIssue,
)
    requires
        *old(created) < usize::MAX,
    ensures
        final(base)@ == old(base)@.insert(
            id@,
            SnapshotView {
                number: issue.number,
                title: bare@,
                body_hash: body_hash_spec(body@),
                state: issue.state@,
            },
        ),
        *final(created) == *old(created) + 1,
{
    let snap = Snapshot {
        number: issue.number,
        title: lit(bare),
        body_hash: body_hash(body),
        state: issue.state.clone(),
    };
    base.set(id, snap);
    *created = *created + 1;
}

/// The numbers of the listed issues.
pub fn known_numbers(issues: &Vec<GhIssue>) -> (r: Vec<u64>)
    ensures
        r@.len() == issues@.len(),
        forall|i: int| 0 <= i < r@.len() ==> r@[i] == (#[trigger] issues@[i]).number,
{
    let mut r: Vec<u64> = Vec::new();
    for i in 0..issues.len()
        invariant
            r@.len() == i,
            forall|j: int| 0 <= j < i ==> r@[j] == (#[trigger] issues@[j]).number,
    {
        r.push(issues[i].number);
    }
    r
}

fn contains_number(known: &Vec<u64>, n: u64) -> (r: bool)
    ensures
        r == known@.contains(n),
{
    for i in 0..known.len()
        invariant
            forall|j: int| 0 <= j < i ==> known@[j] != n,
    {
        if known[i] == n {
            return true;
        }
    }
    false
}

/// The base ids whose issue number is not among `known`: linked issues that
/// vanished from the repo.
pub fn vanished(base: &Base, known: &Vec<u64>) -> (r: Vec<String>)
    ensures
        forall|k: Seq<char>|
            #![trigger base@[k]]
            (base@.contains_key(k) && !known@.contains(base@[k].number)) <==> exists|i: int|
                0 <= i < r@.len() && (#[trigger] r@[i])@ == k,
        forall|i: int, j: int| 0 <= i < j < r@.len() ==> key_lt(r@[i]@, r@[j]@),
{
    let ids = base.ids();
    let mut r: Vec<String> = Vec::new();
    for i in 0..ids.len()
        invariant
            forall|a: int, b: int| 0 <= a < b < ids@.len() ==> key_lt(ids@[a]@, ids@[b]@),
            forall|a: int, b: int| 0 <= a < b < r@.len() ==> key_lt(r@[a]@, r@[b]@),
            forall|a: int, m: int| 0 <= a < r@.len() && i <= m < ids@.len() ==> key_lt(r@[a]@, ids@[m]@),
            forall|k: Seq<char>| base@.contains_key(k) <==> exists|j: int| 0 <= j < ids@.len() && (
            #[trigger] ids@[j])@ == k,
            forall|j: int| 0 <= j < r@.len() ==> base@.contains_key((#[trigger] r@[j])@) && !known@.contains(base@[r@[j]@].number),
            forall|j: int|
                0 <= j < i && !known@.contains(base@[(#[trigger] ids@[j])@].number) ==> views(
                    r@,
                ).contains(ids@[j]@),
    {
        assert(base@.contains_key(ids@[i as int]@));
        let snap = base.get(ids[i].as_str()).unwrap();
        let ghost before = r@;
        if !contains_number(known, snap.number) {
            r.push(ids[i].clone());
            assert(views(r@) == views(before).push(ids@[i as int]@));
            assert(views(r@)[r@.len() - 1] == ids@[i as int]@);
        }
        proof {
            assert forall|j: int|
                0 <= j < i + 1 && !known@.contains(base@[(#[trigger] ids@[j])@].number) implies views(
                r@,
            ).contains(ids@[j]@) by {
                if j < i {
                    let m = choose|m: int| 0 <= m < views(before).len() && views(before)[m] == ids@[j]@;
                    assert(views(r@)[m] == ids@[j]@);
                }
            }
        }
    }
    proof {
        assert forall|k: Seq<char>|
            #![trigger base@[k]]
            (base@.contains_key(k) && !known@.contains(base@[k].number)) implies exists|i: int|
                0 <= i < r@.len() && (#[trigger] r@[i])@ == k by {
            let j = choose|j: int| 0 <= j < ids@.len() && (#[trigger] ids@[j])@ == k;
            assert(views(r@).contains(ids@[j]@));
            let m = choose|m: int| 0 <= m < views(r@).len() && views(r@)[m] == ids@[j]@;
            assert(r@[m]@ == k);
        }
    }
    r
}

/// What the sweep does with a vanished issue's ball.
#[derive(Debug, Clone, Copy, PartialEq, Eq, Structural)]
pub enum SweepAction {
    /// The ball is gone too: forget the stale link.
    Forget,
    /// Tag the live task `deferred`.
    Defer,
    /// Close the live task and forget the link.
    CloseAndForget,
    /// Leave the task and the link.
    Keep,
}

/// The sweep action for a vanished issue whose ball is `live` or not.
pub open spec fn sweep_action_spec(live: bool, policy: OnExternalDelete) -> SweepAction {
    if !live {
        SweepAction::Forget
    } else {
        match policy {
            OnExternalDelete::Deferred => SweepAction::Defer,
            OnExternalDelete::Closed => SweepAction::CloseAndForget,
            OnExternalDelete::Noop => SweepAction::Keep,
        }
    }
}

/// External-delete sweep: a vanished issue's dead ball is forgotten; a live
/// one is deferred, closed or left per `on_external_delete`.
pub fn sweep_action(live: bool, policy: OnExternalDelete) -> (r: SweepAction)
    ensures
        r == sweep_action_spec(live, policy),
{
    if !live {
        return SweepAction::Forget;
    }
    match policy {
        OnExternalDelete::Deferred => SweepAction::Defer,
        OnExternalDelete::Closed => SweepAction::CloseAndForget,
        OnExternalDelete::Noop => SweepAction::Keep,
    }
}

/// Record a sweep action in the base.
pub fn apply_sweep(base: &mut Base, id: &str, action: SweepAction)
    ensures
        action == SweepAction::Forget || action == SweepAction::CloseAndForget ==> final(base)@
            == old(base)@.remove(id@),
        action == SweepAction::Defer || action == SweepAction::Keep ==> final(base)@ == old(base)@,
{
    match action {
        SweepAction::Forget | SweepAction::CloseAndForget => base.remove(id),
        _ => {},
    }
}

/// The marker join is a round trip: once an unlinked issue's title is stamped
/// with the id of the ball created for it, the next sync reads that id (and
/// the same bare title) back from the title.
pub proof fn law_stamped_issue_links_back(title: Seq<char>, id: Seq<char>)
    requires
        strip_spec(title).1 is None,
        is_id_spec(id),
    ensures
        strip_spec(append_spec(strip_spec(title).0, id)) == (strip_spec(title).0, Some(id)),
{
    let bare = strip_spec(title).0;
    crate::text::lemma_trim_end_idempotent(title);
    crate::marker::law_strip_after_append(bare, id);
}

/// Loop avoidance across directions: once a sync kept the link of an open
/// issue, the push of the same ball makes no call.
pub proof fn law_push_after_sync_is_unchanged(
    m: Map<Seq<char>, SnapshotView>,
    plan: LinkedPlan,
    id: Seq<char>,
    bare: Seq<char>,
    issue: GhIssue,
    ball: BallView,
    policy: CloseMirror,
)
    requires
        linked_plan_ok(plan, id, bare, issue, Some(ball), policy),
        issue.state@ == "open"@,
    ensures
        plan matches LinkedPlan::Keep { snapshot, .. } && upsert_decision(
            m.insert(id, snapshot@),
            id,
            Some(ball),
        ) == UpsertDecision::Unchanged,
{
    lemma_open_link_is_kept(plan, id, bare, issue, ball, policy);
    crate::push::law_push_after_patch_is_unchanged(m, id, issue.number, ball);
}

/// An open linked issue whose ball is present keeps its link, agreeing on the
/// ball's content in state `open`.
proof fn lemma_open_link_is_kept(
    plan: LinkedPlan,
    id: Seq<char>,
    bare: Seq<char>,
    issue: GhIssue,
    ball: BallView,
    policy: CloseMirror,
)
    requires
        linked_plan_ok(plan, id, bare, issue, Some(ball), policy),
        issue.state@ == "open"@,
    ensures
        plan matches LinkedPlan::Keep { snapshot, .. } && snapshot@ == agreed(issue.number, ball, "open"@),
{
    reveal_strlit("open");
    reveal_strlit("closed");
    assert("open"@.len() == 4 && "closed"@.len() == 6);
    assert(issue.state@ != "closed"@);
    assert(!mirror_close_spec(issue.state@ == "closed"@, true, policy));
}

/// The close asymmetry: with the policy `off`, or with the issue open, a
/// linked reconcile never closes the task.
pub proof fn law_close_mirror_asymmetry(gh_closed: bool, policy: CloseMirror)
    ensures
        policy == CloseMirror::Off ==> !mirror_close_spec(gh_closed, true, policy),
        !gh_closed ==> !mirror_close_spec(gh_closed, true, policy),
        policy != CloseMirror::Off && gh_closed ==> mirror_close_spec(gh_closed, true, policy),
{
}

/// A linked issue whose content already matches its ball needs no re-assert.
pub proof fn law_converged_issue_is_not_reasserted(
    plan: LinkedPlan,
    id: Seq<char>,
    issue: GhIssue,
    ball: BallView,
    policy: CloseMirror,
)
    requires
        linked_plan_ok(plan, id, ball.title, issue, Some(ball), policy),
        truncate_body_spec(body_or_empty(issue.body)) == ball.body,
        !mirror_close_spec(issue.state@ == "closed"@, true, policy),
    ensures
        plan matches LinkedPlan::Keep { reassert, .. } && reassert is None,
{
}

/// Sync scope: with no target label every listed issue is reconciled; with a
/// target label exactly the issues carrying a label of that name are.
pub proof fn law_scope_is_the_target_label(issue: GhIssue, cfg: PluginConfig, r: bool)
    requires
        r == in_scope_spec(issue, cfg),
    ensures
        cfg.target_label is None ==> r,
        cfg.target_label matches Some(l) ==> (r <==> exists|i: int|
            0 <= i < issue.labels@.len() && issue.labels@[i].name@ == l@),
{
}

} // verus!
