//! Push (balls → GitHub), the `*.post` direction, as decisions over the
//! reconciliation base. The process edge reads the ball, makes the GitHub
//! calls these decisions ask for, and hands the answers back to be recorded.
//!
//! The base is the idempotency oracle: an op that moved neither the title,
//! the body nor the state makes no call, which closes the pull → `bl update`
//! → push loop (the pull advanced the base).

use vstd::prelude::*;
use crate::base::{Base, Snapshot, SnapshotView};
use crate::content::{body_hash, body_hash_spec};
use crate::error::PluginError;
use crate::issues_api::{Issue, IssuePatch};
use crate::marker::{append, append_spec, opt_view};
use crate::store::{Ball, BallView};
use crate::text::{chars_eq, chars_of, extend, lit, str_eq, string_of};
use crate::wire::{metadata_id_spec, Payload};

verus! {

broadcast use vstd::string::group_string_axioms;

/// Whether `op` retires a ball (its issue gets closed).
pub open spec fn is_retire_op(op: Seq<char>) -> bool {
    op == "close"@ || op == "drop"@
}

/// Whether `op` creates or edits a ball (its issue gets created or updated).
pub open spec fn is_upsert_op(op: Seq<char>) -> bool {
    op == "create"@ || op == "update"@
}

/// The error for a post payload without a sealed id.
pub open spec fn no_id_message() -> Seq<char> {
    "post payload carries no bl-id"@
}

/// What a sealed op asks of the push side.
#[derive(Debug, Clone)]
pub enum PushStep {
    /// Not an op this plugin mirrors.
    Nothing,
    /// Close the issue of ball `id`.
    Close { id: String },
    /// Create or update the issue of ball `id`.
    Upsert { id: String },
}

/// Route a post payload: the sealed id is required; retire ops close,
/// create/update upsert, every other op does nothing.
pub fn route(payload: &Payload) -> (r: Result<PushStep, PluginError>)
    ensures
        ({
            let id = metadata_id_spec(
                match payload.metadata {
                    Some(m) => Some(m@),
                    None => None,
                },
            );
            match id {
                None => r matches Err(PluginError::Other(m)) && m@ == no_id_message(),
                Some(id) => match r {
                    Ok(PushStep::Close { id: i }) => is_retire_op(payload.op@) && i@ == id,
                    Ok(PushStep::Upsert { id: i }) => is_upsert_op(payload.op@) && i@ == id,
                    Ok(PushStep::Nothing) => !is_retire_op(payload.op@) && !is_upsert_op(payload.op@),
                    Err(_) => false,
                },
            }
        }),
{
    let id = match payload.id() {
        Some(id) => id,
        None => {
            return Err(PluginError::Other(lit("post payload carries no bl-id")));
        },
    };
    let op = payload.op.as_str();
    if str_eq(op, "close") || str_eq(op, "drop") {
        Ok(PushStep::Close { id })
    } else if str_eq(op, "create") || str_eq(op, "update") {
        Ok(PushStep::Upsert { id })
    } else {
        Ok(PushStep::Nothing)
    }
}

/// The issue to close for a retired ball: its cached number, unless the ball
/// was never mirrored or its issue is already closed.
pub open spec fn close_decision(m: Map<Seq<char>, SnapshotView>, id: Seq<char>) -> Option<u64> {
    if m.contains_key(id) && m[id].state != "closed"@ {
        Some(m[id].number)
    } else {
        None
    }
}

/// Which issue, if any, a retire op must close.
pub fn plan_close(base: &Base, id: &str) -> (r: Option<u64>)
    ensures
        r == close_decision(base@, id@),
{
    match base.get(id) {
        Some(snap) => {
            if str_eq(snap.state.as_str(), "closed") {
                None
            } else {
                Some(snap.number)
            }
        },
        None => None,
    }
}

/// The snapshot after a successful close: the same, with state `closed`.
pub open spec fn closed_snapshot(s: SnapshotView) -> SnapshotView {
    SnapshotView { state: "closed"@, ..s }
}

/// Record that the issue of ball `id` was closed.
pub fn record_close(base: &mut Base, id: &str)
    ensures
        old(base)@.contains_key(id@) ==> final(base)@ == old(base)@.insert(
            id@,
            closed_snapshot(old(base)@[id@]),
        ),
        !old(base)@.contains_key(id@) ==> final(base)@ == old(base)@,
{
    let snap = match base.get(id) {
        Some(s) => s.duplicate(),
        None => {
            return;
        },
    };
    let closed = Snapshot {
        number: snap.number,
        title: snap.title,
        body_hash: snap.body_hash,
        state: lit("closed"),
    };
    base.set(id, closed);
}

/// Whether the ball moved away from what both sides last agreed on: its title,
/// its body (by hash), or the issue not being open.
pub open spec fn moved(s: SnapshotView, b: BallView) -> bool {
    b.title != s.title || body_hash_spec(b.body) != s.body_hash || s.state != "open"@
}

/// What an upsert must do.
pub enum UpsertDecision {
    /// The ball file is absent from the store.
    BallAbsent,
    /// Nothing moved since the last agreement: no call.
    Unchanged,
    /// PATCH issue `number` with this marked title, body, and state `open`.
    Patch { number: u64, title: Seq<char>, body: Seq<char> },
    /// POST a new issue with this marked title and body.
    Create { title: Seq<char>, body: Seq<char> },
}

/// The upsert decision for ball `id` read as `ball`, against base `m`.
pub open spec fn upsert_decision(
    m: Map<Seq<char>, SnapshotView>,
    id: Seq<char>,
    ball: Option<BallView>,
) -> UpsertDecision {
    match ball {
        None => UpsertDecision::BallAbsent,
        Some(b) => if m.contains_key(id) {
            if moved(m[id], b) {
                UpsertDecision::Patch {
                    number: m[id].number,
                    title: append_spec(b.title, id),
                    body: b.body,
                }
            } else {
                UpsertDecision::Unchanged
            }
        } else {
            UpsertDecision::Create { title: append_spec(b.title, id), body: b.body }
        },
    }
}

/// The upsert to perform.
#[derive(Debug, Clone)]
pub enum UpsertPlan {
    /// Nothing moved: no call.
    Unchanged,
    /// PATCH issue `number` with `patch`.
    Patch { number: u64, patch: IssuePatch },
    /// POST a new issue.
    Create { title: String, body: String },
}

/// Whether `plan` carries out `d`.
pub open spec fn plan_matches(plan: UpsertPlan, d: UpsertDecision) -> bool {
    match (plan, d) {
        (UpsertPlan::Unchanged, UpsertDecision::Unchanged) => true,
        (UpsertPlan::Patch { number, patch }, UpsertDecision::Patch { number: n, title, body }) => {
            &&& number == n
            &&& opt_view(patch.title) == Some(title)
            &&& opt_view(patch.body) == Some(body)
            &&& opt_view(patch.state) == Some("open"@)
        },
        (UpsertPlan::Create { title, body }, UpsertDecision::Create { title: t, body: b }) => title@
            == t && body@ == b,
        _ => false,
    }
}

/// The error for a created or updated ball missing from the store.
pub open spec fn absent_ball_message(id: Seq<char>) -> Seq<char> {
    "create/update post: ball "@ + id + " absent from the store"@
}

/// Whether `r` carries out the upsert decision for ball `id` read as `ball`.
pub open spec fn upsert_ok(
    m: Map<Seq<char>, SnapshotView>,
    id: Seq<char>,
    ball: Option<BallView>,
    r: Result<UpsertPlan, PluginError>,
) -> bool {
    match upsert_decision(m, id, ball) {
        UpsertDecision::BallAbsent => r matches Err(PluginError::Other(msg)) && msg@
            == absent_ball_message(id),
        d => r matches Ok(p) && plan_matches(p, d),
    }
}

/// Decide the upsert for ball `id`, read from the store as `ball`: a new ball
/// creates an issue, a known one is patched only when its title, body or
/// state moved.
pub fn plan_upsert(base: &Base, id: &str, ball: Option<Ball>) -> (r: Result<UpsertPlan, PluginError>)
    ensures
        upsert_ok(
            base@,
            id@,
            match ball {
                Some(b) => Some(b@),
                None => None,
            },
            r,
        ),
{
    let ball = match ball {
        Some(b) => b,
        None => {
            let mut v = chars_of("create/update post: ball ");
            extend(&mut v, &chars_of(id));
            extend(&mut v, &chars_of(" absent from the store"));
            return Err(PluginError::Other(string_of(&v)));
        },
    };
    let marked = append(ball.title.as_str(), id);
    match base.get(id) {
        Some(snap) => {
            let title_moved = !str_eq(ball.title.as_str(), snap.title.as_str());
            let h = body_hash(ball.body.as_str());
            let body_moved = !str_eq(h.as_str(), snap.body_hash.as_str());
            let reopen = !str_eq(snap.state.as_str(), "open");
            if !(title_moved || body_moved || reopen) {
                return Ok(UpsertPlan::Unchanged);
            }
            Ok(
                UpsertPlan::Patch {
                    number: snap.number,
                    patch: IssuePatch {
                        title: Some(marked),
                        body: Some(ball.body),
                        state: Some(lit("open")),
                    },
                },
            )
        },
        None => Ok(UpsertPlan::Create { title: marked, body: ball.body }),
    }
}

/// The state both sides agree on once ball `b` is mirrored to issue `number`
/// in state `state`.
pub open spec fn agreed(number: u64, b: BallView, state: Seq<char>) -> SnapshotView {
    SnapshotView { number, title: b.title, body_hash: body_hash_spec(b.body), state }
}

/// Record that issue `number` was patched to match `ball` (and reopened).
pub fn record_patched(base: &mut Base, id: &str, number: u64, ball: &Ball)
    ensures
        final(base)@ == old(base)@.insert(id@, agreed(number, ball@, "open"@)),
{
    let snap = Snapshot {
        number,
        title: ball.title.clone(),
        body_hash: body_hash(ball.body.as_str()),
        state: lit("open"),
    };
    base.set(id, snap);
}

/// Record that `issue` was created for `ball`.
pub fn record_created(base: &mut Base, id: &str, ball: &Ball, issue: &Issue)
    ensures
        final(base)@ == old(base)@.insert(id@, agreed(issue.number, ball@, issue.state@)),
{
    let snap = Snapshot {
        number: issue.number,
        title: ball.title.clone(),
        body_hash: body_hash(ball.body.as_str()),
        state: issue.state.clone(),
    };
    base.set(id, snap);
}

/// Pushing the same ball again after it was mirrored to an open issue (a
/// patch, or a create GitHub answered `open`) makes no call.
pub proof fn law_push_after_patch_is_unchanged(
    m: Map<Seq<char>, SnapshotView>,
    id: Seq<char>,
    number: u64,
    ball: BallView,
)
    ensures
        upsert_decision(m.insert(id, agreed(number, ball, "open"@)), id, Some(ball))
            == UpsertDecision::Unchanged,
{
}

/// Closing twice closes once: after a recorded close, the next retire of the
/// same ball makes no call.
pub proof fn law_close_is_idempotent(m: Map<Seq<char>, SnapshotView>, id: Seq<char>)
    requires
        m.contains_key(id),
    ensures
        close_decision(m.insert(id, closed_snapshot(m[id])), id) is None,
{
}

/// A ball that moved is always pushed: if its title or body differs from the
/// last agreement, the decision is a PATCH of the cached issue.
pub proof fn law_moved_ball_is_patched(
    m: Map<Seq<char>, SnapshotView>,
    id: Seq<char>,
    ball: BallView,
)
    requires
        m.contains_key(id),
        ball.title != m[id].title || body_hash_spec(ball.body) != m[id].body_hash,
    ensures
        upsert_decision(m, id, Some(ball)) matches UpsertDecision::Patch { number, .. } && number
            == m[id].number,
{
}

/// A live ball reopens its issue: when the last agreed state is not `open`,
/// the upsert patches the cached issue number back to `open`, whether or not
/// the title and body moved; and only a ball agreeing on title, body hash and
/// an `open` state makes no call.
pub proof fn law_live_ball_reopens_its_issue(
    m: Map<Seq<char>, SnapshotView>,
    id: Seq<char>,
    ball: BallView,
    r: Result<UpsertPlan, PluginError>,
)
    requires
        upsert_ok(m, id, Some(ball), r),
        m.contains_key(id),
    ensures
        m[id].state != "open"@ ==> (r matches Ok(UpsertPlan::Patch { number, patch }) && number
            == m[id].number && opt_view(patch.state) == Some("open"@) && opt_view(patch.body)
            == Some(ball.body)),
        r matches Ok(UpsertPlan::Unchanged) <==> (m[id].state == "open"@ && m[id].title
            == ball.title && m[id].body_hash == body_hash_spec(ball.body)),
{
}

} // verus!
