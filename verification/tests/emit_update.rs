use balls_github_issues::config::{CloseMirror, OnExternalDelete, PluginConfig, RepoConfig};
use balls_github_issues::issues_api::GhIssue;
use balls_github_issues::pull_content::body_hash;
use balls_github_issues::pull_emit::MAX_BODY_BYTES;
use balls_github_issues::pull_emit_update::{updated_from, updated_from_at};
use balls_github_issues::types::{IssueProjection, SyncUpdate, Task};

fn cfg(mirror: CloseMirror) -> PluginConfig {
    PluginConfig {
        base: RepoConfig { repo: "o/n".into(), api_base: "https://api.github.com".into() },
        target_label: None,
        on_external_delete: OnExternalDelete::Deferred,
        close_mirror: mirror,
    }
}

fn bare_task(id: &str, title: &str, status: &str) -> Task {
    Task {
        id: id.into(),
        title: title.into(),
        status: status.into(),
        description: String::new(),
        tags: Vec::new(),
        links: Vec::new(),
        target_branch: None,
        issue: None,
    }
}

fn task_with_projection(
    id: &str,
    status: &str,
    title: &str,
    description: &str,
    last_title: &str,
    last_body_hash: &str,
    source: &str,
) -> Task {
    Task {
        id: id.into(),
        title: title.into(),
        status: status.into(),
        description: description.into(),
        tags: Vec::new(),
        links: Vec::new(),
        target_branch: None,
        issue: Some(IssueProjection {
            number: Some(7),
            url: Some("u".into()),
            state: Some("open".into()),
            source: Some(source.into()),
            synced_at: Some("2026-01-01T00:00:00+00:00".into()),
            last_synced_status: Some(status.into()),
            last_synced_title: Some(last_title.into()),
            last_synced_body_hash: Some(last_body_hash.into()),
        }),
    }
}

fn issue(state: &str, number: u64) -> GhIssue {
    issue_full(number, "t", state, None)
}

fn issue_full(number: u64, title: &str, state: &str, body: Option<&str>) -> GhIssue {
    GhIssue {
        number,
        title: title.into(),
        body: body.map(str::to_string),
        state: state.into(),
        labels: Vec::new(),
        pull_request: false,
        html_url: "u".into(),
    }
}

fn blob(u: &SyncUpdate) -> &balls_github_issues::types::ProjectionBlob {
    u.external.as_ref().unwrap()
}

#[test]
fn emits_close_when_gh_closed_and_balls_open_authoritative() {
    let t = bare_task("bl-1", "t", "open");
    let upd = updated_from(&issue("closed", 7), &t, &cfg(CloseMirror::Authoritative)).unwrap();
    assert_eq!(upd.task_id, "bl-1");
    assert_eq!(upd.fields.status.as_deref(), Some("closed"));
    assert_eq!(upd.add_note, "GH issue #7 closed externally (close_mirror=authoritative)");
    assert_eq!(blob(&upd).last_synced_status, "closed");
    assert_eq!(blob(&upd).state, "closed");
    assert_eq!(blob(&upd).source, "balls");
}

#[test]
fn emits_close_with_best_effort_tag_when_policy_is_best_effort() {
    let t = bare_task("bl-2", "t", "in_progress");
    let upd = updated_from(&issue("closed", 9), &t, &cfg(CloseMirror::BestEffort)).unwrap();
    assert!(upd.add_note.contains("best_effort"));
    assert_eq!(upd.fields.status.as_deref(), Some("closed"));
}

#[test]
fn skips_when_close_mirror_off_and_nothing_else_to_mirror() {
    let t = bare_task("bl-3", "t", "open");
    assert!(updated_from(&issue("closed", 11), &t, &cfg(CloseMirror::Off)).is_none());
}

#[test]
fn skips_when_gh_open_and_no_content_change() {
    let t = bare_task("bl-4", "t", "open");
    assert!(updated_from(&issue("open", 5), &t, &cfg(CloseMirror::Authoritative)).is_none());
}

#[test]
fn skips_when_balls_already_closed_and_no_content_change() {
    let t = bare_task("bl-5", "t", "closed");
    assert!(updated_from(&issue("closed", 13), &t, &cfg(CloseMirror::Authoritative)).is_none());
}

#[test]
fn mirrors_gh_title_when_only_gh_moved() {
    let body = "same body";
    let hash = body_hash(body);
    let t = task_with_projection("bl-1", "open", "Old title", body, "Old title [bl-1]", &hash, "balls");
    let i = issue_full(7, "New title from GH [bl-1]", "open", Some(body));
    let upd = updated_from(&i, &t, &cfg(CloseMirror::Authoritative)).unwrap();
    assert_eq!(upd.fields.title.as_deref(), Some("New title from GH"));
    assert_eq!(upd.add_note, "GH issue #7 title mirrored from GH (was \"Old title [bl-1]\")");
    assert_eq!(blob(&upd).last_synced_title.as_deref(), Some("New title from GH [bl-1]"));
}

#[test]
fn mirrors_gh_body_when_only_gh_moved() {
    let hash = body_hash("old");
    let t = task_with_projection("bl-1", "open", "T", "old", "T [bl-1]", &hash, "balls");
    let i = issue_full(7, "T [bl-1]", "open", Some("new body from GH"));
    let upd = updated_from(&i, &t, &cfg(CloseMirror::Authoritative)).unwrap();
    assert_eq!(upd.fields.description.as_deref(), Some("new body from GH"));
    assert_eq!(upd.add_note, "GH issue #7 body mirrored from GH");
    let expect = body_hash("new body from GH");
    assert_eq!(blob(&upd).last_synced_body_hash.as_deref(), Some(expect.as_str()));
}

#[test]
fn title_conflict_when_both_moved_leaves_balls_with_conflict_note() {
    let hash = body_hash("same");
    let t = task_with_projection("bl-1", "open", "Balls renamed", "same", "Original [bl-1]", &hash, "balls");
    let i = issue_full(7, "GH renamed [bl-1]", "open", Some("same"));
    let upd = updated_from(&i, &t, &cfg(CloseMirror::Authoritative)).unwrap();
    assert!(upd.fields.title.is_none());
    assert_eq!(
        upd.add_note,
        "GH issue #7 title conflict: GH=\"GH renamed [bl-1]\", balls=\"Balls renamed [bl-1]\" — leaving balls title (balls wins per merge contract)"
    );
    assert_eq!(blob(&upd).last_synced_title.as_deref(), Some("Balls renamed [bl-1]"));
}

#[test]
fn body_conflict_when_both_moved_leaves_balls_with_conflict_note() {
    let last_hash = body_hash("original");
    let t = task_with_projection("bl-1", "open", "T", "balls edit", "T [bl-1]", &last_hash, "balls");
    let i = issue_full(7, "T [bl-1]", "open", Some("gh edit"));
    let upd = updated_from(&i, &t, &cfg(CloseMirror::Authoritative)).unwrap();
    assert!(upd.fields.description.is_none());
    assert_eq!(
        upd.add_note,
        "GH issue #7 body conflict — leaving balls description (balls wins per merge contract)"
    );
}

#[test]
fn pull_update_preserves_existing_source_in_projection() {
    let hash = body_hash("x");
    let t = task_with_projection("bl-1", "open", "Old", "x", "Old [bl-1]", &hash, "github");
    let i = issue_full(7, "New [bl-1]", "open", Some("x"));
    let upd = updated_from(&i, &t, &cfg(CloseMirror::Authoritative)).unwrap();
    assert_eq!(blob(&upd).source, "github");
}

#[test]
fn second_sync_after_pull_update_is_noop() {
    let hash = body_hash("x");
    let t = task_with_projection("bl-1", "open", "Old", "x", "Old [bl-1]", &hash, "balls");
    let i = issue_full(7, "New [bl-1]", "open", Some("x"));
    let upd = updated_from(&i, &t, &cfg(CloseMirror::Authoritative)).unwrap();
    let b = blob(&upd).clone();
    let mut landed = t.clone();
    landed.title = upd.fields.title.clone().unwrap();
    landed.issue = Some(IssueProjection {
        number: Some(b.number),
        url: Some(b.url),
        state: Some(b.state),
        source: Some(b.source),
        synced_at: Some(b.synced_at),
        last_synced_status: Some(b.last_synced_status),
        last_synced_title: b.last_synced_title,
        last_synced_body_hash: b.last_synced_body_hash,
    });
    assert!(updated_from(&i, &landed, &cfg(CloseMirror::Authoritative)).is_none());
}

#[test]
fn skips_when_projection_lacks_last_synced_title_and_no_status_change() {
    let mut t = task_with_projection("bl-1", "open", "X", "b", "", "", "balls");
    if let Some(p) = t.issue.as_mut() {
        p.last_synced_title = None;
        p.last_synced_body_hash = None;
    }
    let i = issue_full(7, "X [bl-1]", "open", Some("b"));
    assert!(updated_from(&i, &t, &cfg(CloseMirror::Authoritative)).is_none());
}

#[test]
fn close_mirror_combines_with_content_mirror_in_one_update() {
    let hash = body_hash("x");
    let t = task_with_projection("bl-1", "open", "Old", "x", "Old [bl-1]", &hash, "balls");
    let i = issue_full(7, "New [bl-1]", "closed", Some("x"));
    let upd = updated_from_at(&i, &t, &cfg(CloseMirror::Authoritative), "T0".into()).unwrap();
    assert_eq!(upd.fields.status.as_deref(), Some("closed"));
    assert_eq!(upd.fields.title.as_deref(), Some("New"));
    assert_eq!(
        upd.add_note,
        "GH issue #7 closed externally (close_mirror=authoritative)\nGH issue #7 title mirrored from GH (was \"Old [bl-1]\")"
    );
    assert_eq!(blob(&upd).synced_at, "T0");
    assert_eq!(blob(&upd).last_synced_status, "closed");
}

#[test]
fn mirrored_body_oversize_is_truncated_with_marker() {
    let big = "x".repeat(MAX_BODY_BYTES + 100);
    let hash = body_hash("old");
    let t = task_with_projection("bl-1", "open", "T", "old", "T [bl-1]", &hash, "balls");
    let i = issue_full(7, "T [bl-1]", "open", Some(&big));
    let upd = updated_from(&i, &t, &cfg(CloseMirror::Authoritative)).unwrap();
    let new_body = upd.fields.description.clone().unwrap();
    assert_eq!(
        new_body,
        format!(
            "{}\n\n[issues plugin: body truncated to 65536 bytes by ingest defense]",
            "x".repeat(MAX_BODY_BYTES)
        )
    );
    let expect = body_hash(&new_body);
    assert_eq!(blob(&upd).last_synced_body_hash.as_deref(), Some(expect.as_str()));
}

#[test]
fn the_sync_time_comes_from_the_clock() {
    let t = bare_task("bl-1", "t", "open");
    let upd = updated_from(&issue("closed", 3), &t, &cfg(CloseMirror::Authoritative)).unwrap();
    let at = &blob(&upd).synced_at;
    assert!(chrono::DateTime::parse_from_rfc3339(at).is_ok());
}
