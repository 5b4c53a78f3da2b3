use balls_github_issues::commands::sync::{sync_report_at, Classification};
use balls_github_issues::config::{CloseMirror, OnExternalDelete, PluginConfig, RepoConfig};
use balls_github_issues::issues_api::{GhIssue, GhLabel};
use balls_github_issues::pull_emit::{
    created_from, created_from_at, deleted_from, sweep_deletes, updated_from, MAX_BODY_BYTES,
    MAX_LABELS,
};
use balls_github_issues::types::{IssueProjection, Task};

fn cfg_with(policy: OnExternalDelete, mirror: CloseMirror, repo: &str) -> PluginConfig {
    PluginConfig {
        base: RepoConfig { repo: repo.into(), api_base: "https://api.github.com".into() },
        target_label: None,
        on_external_delete: policy,
        close_mirror: mirror,
    }
}

fn cfg(policy: OnExternalDelete) -> PluginConfig {
    cfg_with(policy, CloseMirror::Authoritative, "o/n")
}

fn projection(number: u64, status: &str) -> IssueProjection {
    IssueProjection {
        number: Some(number),
        url: Some("u".into()),
        state: Some("open".into()),
        source: Some("balls".into()),
        synced_at: Some("t".into()),
        last_synced_status: Some(status.into()),
        last_synced_title: None,
        last_synced_body_hash: None,
    }
}

fn task(id: &str, status: &str, number: Option<u64>) -> Task {
    Task {
        id: id.into(),
        title: "t".into(),
        status: status.into(),
        description: String::new(),
        tags: Vec::new(),
        links: Vec::new(),
        target_branch: None,
        issue: number.map(|n| projection(n, "open")),
    }
}

fn issue_full(state: &str, number: u64, title: &str, body: &str, labels: &[&str]) -> GhIssue {
    GhIssue {
        number,
        title: title.into(),
        body: Some(body.into()),
        state: state.into(),
        labels: labels.iter().map(|n| GhLabel { name: (*n).into() }).collect(),
        pull_request: false,
        html_url: "u".into(),
    }
}

#[test]
fn created_from_simple_issue() {
    let i = issue_full("open", 7, "External report", "short body", &["bug"]);
    let c = created_from(&i);
    assert_eq!(c.title, "External report");
    assert_eq!(c.task_type, "task");
    assert_eq!(c.priority, 3);
    assert_eq!(c.status, "open");
    assert_eq!(c.description, "short body");
    assert_eq!(c.tags, vec!["bug".to_string()]);
    assert_eq!(c.external.number, 7);
    assert_eq!(c.external.source, "github");
}

#[test]
fn created_from_truncates_oversized_body() {
    let big = "x".repeat(MAX_BODY_BYTES + 1024);
    let c = created_from_at(&issue_full("open", 1, "Big", &big, &[]), "T".into());
    assert_eq!(
        c.description,
        format!(
            "{}\n\n[issues plugin: body truncated to 65536 bytes by ingest defense]",
            "x".repeat(MAX_BODY_BYTES)
        )
    );
}

#[test]
fn created_from_caps_label_count() {
    let labels: Vec<String> = (0..MAX_LABELS + 10).map(|i| format!("l{i}")).collect();
    let refs: Vec<&str> = labels.iter().map(String::as_str).collect();
    let c = created_from(&issue_full("open", 2, "Many labels", "", &refs));
    assert_eq!(c.tags.len(), MAX_LABELS);
    assert_eq!(c.tags[0], "l0");
    assert_eq!(
        c.description,
        "\n\n[issues plugin: label set truncated to first 100 by ingest defense]"
    );
}

#[test]
fn created_from_both_cuts_note_each_on_its_own_line() {
    let labels: Vec<String> = (0..MAX_LABELS + 1).map(|i| format!("l{i}")).collect();
    let refs: Vec<&str> = labels.iter().map(String::as_str).collect();
    let big = "y".repeat(MAX_BODY_BYTES + 1);
    let c = created_from(&issue_full("open", 2, "Both", &big, &refs));
    assert!(c.description.ends_with(
        "by ingest defense]\n[issues plugin: label set truncated to first 100 by ingest defense]"
    ));
}

#[test]
fn created_from_empty_body_and_labels() {
    let c = created_from(&issue_full("open", 3, "Simple", "", &[]));
    assert_eq!(c.description, "");
    assert!(c.tags.is_empty());
}

#[test]
fn created_from_born_closed_issue_yields_closed_task() {
    let c = created_from_at(&issue_full("closed", 42, "Already shipped", "body", &[]), "T".into());
    assert_eq!(c.status, "closed");
    assert_eq!(c.external.state, "closed");
    assert_eq!(c.external.last_synced_status, "closed");
    assert_eq!(c.external.synced_at, "T");
}

#[test]
fn created_from_handles_utf8_truncation_boundary() {
    let mut body = "x".repeat(MAX_BODY_BYTES - 1);
    body.push('\u{1F600}');
    let c = created_from(&issue_full("open", 4, "Emoji", &body, &[]));
    assert!(c.description.starts_with(&format!("{}\n\n[issues", "x".repeat(MAX_BODY_BYTES - 1))));
}

#[test]
fn close_mirror_update_names_issue_and_policy() {
    let t = task("bl-1", "open", Some(7));
    let i = issue_full("closed", 7, "t", "", &[]);
    let upd = updated_from(&i, &t, &cfg_with(OnExternalDelete::Deferred, CloseMirror::BestEffort, "o/n"))
        .unwrap();
    assert_eq!(upd.fields.status.as_deref(), Some("closed"));
    assert_eq!(upd.add_note, "GH issue #7 closed externally (close_mirror=best_effort)");
    assert!(updated_from(&i, &task("bl-1", "closed", Some(7)), &cfg(OnExternalDelete::Deferred)).is_none());
    let off = cfg_with(OnExternalDelete::Deferred, CloseMirror::Off, "o/n");
    assert!(updated_from(&i, &t, &off).is_none());
}

#[test]
fn deleted_from_deferred_default() {
    let upd = deleted_from(&task("bl-1", "open", Some(7)), &cfg(OnExternalDelete::Deferred)).unwrap();
    assert_eq!(upd.fields.status.as_deref(), Some("deferred"));
    assert_eq!(upd.add_note, "GH issue #7 no longer found in repo (on_external_delete=deferred)");
}

#[test]
fn deleted_from_closed_policy() {
    let upd = deleted_from(&task("bl-2", "in_progress", Some(7)), &cfg(OnExternalDelete::Closed)).unwrap();
    assert_eq!(upd.fields.status.as_deref(), Some("closed"));
}

#[test]
fn deleted_from_noop_returns_none() {
    assert!(deleted_from(&task("bl-3", "open", Some(7)), &cfg(OnExternalDelete::Noop)).is_none());
}

#[test]
fn deleted_from_already_at_target_status_skips() {
    assert!(deleted_from(&task("bl-4", "deferred", Some(7)), &cfg(OnExternalDelete::Deferred)).is_none());
}

#[test]
fn deleted_from_already_closed_task_skips() {
    assert!(deleted_from(&task("bl-c", "closed", Some(7)), &cfg(OnExternalDelete::Deferred)).is_none());
}

#[test]
fn deleted_from_no_stored_number_skips() {
    assert!(deleted_from(&task("bl-5", "open", None), &cfg(OnExternalDelete::Deferred)).is_none());
}

#[test]
fn sweep_deletes_respects_cap_and_skips_present_issues() {
    let tasks = vec![
        task("bl-a", "open", Some(1)),
        task("bl-b", "open", Some(2)),
        task("bl-c", "open", Some(3)),
        task("bl-d", "open", None),
    ];
    let known = vec![2u64];
    let c = cfg(OnExternalDelete::Deferred);
    let out = sweep_deletes(&tasks, &known, &c, 1);
    assert_eq!(out.len(), 1);
    assert_eq!(out[0].task_id, "bl-a");
    let out = sweep_deletes(&tasks, &known, &c, 10);
    assert_eq!(out.len(), 2);
    assert_eq!(out[0].task_id, "bl-a");
    assert_eq!(out[1].task_id, "bl-c");
    assert!(sweep_deletes(&tasks, &known, &c, 0).is_empty());
}

#[test]
fn a_sync_report_collects_updates_creates_then_deletes() {
    let issues = vec![
        issue_full("closed", 1, "one", "", &[]),
        issue_full("open", 2, "two", "b", &["x"]),
        issue_full("open", 3, "three", "", &[]),
    ];
    let classes = vec![
        Classification::KnownUpdate { task_id: "bl-1".into() },
        Classification::AutoCreate,
        Classification::Skip("out of scope".into()),
    ];
    let tasks = vec![task("bl-1", "open", Some(1)), task("bl-9", "open", Some(9))];
    let r = sync_report_at(&issues, &classes, &tasks, &cfg(OnExternalDelete::Deferred), "T0".into());
    assert_eq!(r.created.len(), 1);
    assert_eq!(r.created[0].title, "two");
    assert_eq!(r.updated.len(), 2);
    assert_eq!(r.updated[0].task_id, "bl-1");
    assert_eq!(r.updated[0].fields.status.as_deref(), Some("closed"));
    assert_eq!(r.updated[1].task_id, "bl-9");
    assert_eq!(r.updated[1].fields.status.as_deref(), Some("deferred"));
    assert!(r.deleted.is_empty());
}
