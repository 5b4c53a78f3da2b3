use balls_github_issues::commands::push::{check_task_id, issue_blob_at, plan_task_push, TaskPush};
use balls_github_issues::config::{CloseMirror, OnExternalDelete, PluginConfig, RepoConfig};
use balls_github_issues::error::PluginError;
use balls_github_issues::issues_api::GhIssue;
use balls_github_issues::pull_content::body_hash;
use balls_github_issues::types::{IssueProjection, ProjectionBlob, Task};

fn cfg_repo(repo: &str) -> PluginConfig {
    PluginConfig {
        base: RepoConfig { repo: repo.into(), api_base: "http://x".into() },
        target_label: None,
        on_external_delete: OnExternalDelete::Deferred,
        close_mirror: CloseMirror::Authoritative,
    }
}

fn cfg() -> PluginConfig {
    cfg_repo("o/n")
}

fn task(id: &str, title: &str, status: &str, description: &str) -> Task {
    Task {
        id: id.into(),
        title: title.into(),
        status: status.into(),
        description: description.into(),
        tags: Vec::new(),
        links: Vec::new(),
        target_branch: None,
        issue: None,
    }
}

fn with_projection(
    mut t: Task,
    number: u64,
    last_status: &str,
    last_title: Option<&str>,
    last_hash: Option<&str>,
) -> Task {
    t.issue = Some(IssueProjection {
        number: Some(number),
        url: Some("u".into()),
        state: Some("open".into()),
        source: Some("balls".into()),
        synced_at: Some("t".into()),
        last_synced_status: Some(last_status.into()),
        last_synced_title: last_title.map(str::to_string),
        last_synced_body_hash: last_hash.map(str::to_string),
    });
    t
}

fn reply(number: u64, url: &str, state: &str) -> GhIssue {
    GhIssue {
        number,
        title: String::new(),
        body: None,
        state: state.into(),
        labels: Vec::new(),
        pull_request: false,
        html_url: url.into(),
    }
}

/// Plan the push and, when GitHub is called, record what GitHub answered.
fn push_with_reply(conf: &PluginConfig, t: &Task, answer: GhIssue) -> Option<ProjectionBlob> {
    match plan_task_push(conf, t).unwrap() {
        TaskPush::Noop => None,
        TaskPush::Create { title, .. } | TaskPush::Patch { title, .. } => {
            Some(issue_blob_at(&answer, &t.status, &title, &t.description, "now".into()))
        },
    }
}

#[test]
fn noop_when_closed_without_stored_number() {
    let r = plan_task_push(&cfg(), &task("bl-1", "t", "closed", ""));
    assert!(matches!(r, Ok(TaskPush::Noop)));
}

#[test]
fn noop_when_status_title_and_body_all_match_last_sync() {
    let empty = body_hash("");
    let t = with_projection(task("bl-2", "t", "open", ""), 3, "open", Some("t [bl-2]"), Some(&empty));
    assert!(matches!(plan_task_push(&cfg(), &t), Ok(TaskPush::Noop)));
}

#[test]
fn patches_when_only_title_changed_since_last_sync() {
    let empty = body_hash("");
    let t = with_projection(task("bl-7", "New", "open", ""), 8, "open", Some("Old [bl-7]"), Some(&empty));
    match plan_task_push(&cfg(), &t) {
        Ok(TaskPush::Patch { number, title, state, .. }) => {
            assert_eq!(number, 8);
            assert_eq!(title, "New [bl-7]");
            assert_eq!(state, "open");
        },
        _ => panic!("expected a patch"),
    }
    let b = push_with_reply(&cfg(), &t, reply(8, "u", "open")).unwrap();
    assert_eq!(b.last_synced_title.as_deref(), Some("New [bl-7]"));
    assert_eq!(b.last_synced_status, "open");
}

#[test]
fn patches_when_only_body_changed_since_last_sync() {
    let t = with_projection(
        task("bl-9", "t", "open", "new body"),
        9,
        "open",
        Some("t [bl-9]"),
        Some("0000000000000000"),
    );
    let b = push_with_reply(&cfg(), &t, reply(9, "u", "open")).unwrap();
    let expect = body_hash("new body");
    assert_eq!(b.last_synced_body_hash.as_deref(), Some(expect.as_str()));
}

#[test]
fn rejects_bad_repo() {
    match plan_task_push(&cfg_repo("noslash"), &task("bl-1", "t", "open", "")) {
        Err(PluginError::Config(m)) => assert_eq!(m, "repo is not owner/name"),
        _ => panic!("expected a config error"),
    }
}

#[test]
fn creates_issue_when_no_stored_number() {
    let t = task("bl-3", "Do it", "open", "body");
    match plan_task_push(&cfg(), &t) {
        Ok(TaskPush::Create { owner, name, title, body }) => {
            assert_eq!((owner.as_str(), name.as_str()), ("o", "n"));
            assert_eq!(title, "Do it [bl-3]");
            assert_eq!(body, "body");
        },
        _ => panic!("expected a create"),
    }
    let b = push_with_reply(&cfg(), &t, reply(7, "https://gh/i/7", "open")).unwrap();
    assert_eq!(b.number, 7);
    assert_eq!(b.source, "balls");
    assert_eq!(b.last_synced_status, "open");
    assert_eq!(b.last_synced_title.as_deref(), Some("Do it [bl-3]"));
    let expect = body_hash("body");
    assert_eq!(b.last_synced_body_hash.as_deref(), Some(expect.as_str()));
}

#[test]
fn patches_existing_issue_on_status_change_close() {
    let t = with_projection(task("bl-4", "t", "closed", ""), 4, "open", None, None);
    match plan_task_push(&cfg(), &t) {
        Ok(TaskPush::Patch { number, state, .. }) => {
            assert_eq!(number, 4);
            assert_eq!(state, "closed");
        },
        _ => panic!("expected a patch"),
    }
    let b = push_with_reply(&cfg(), &t, reply(4, "u", "closed")).unwrap();
    assert_eq!(b.state, "closed");
    assert_eq!(b.last_synced_status, "closed");
}

#[test]
fn patches_existing_issue_on_status_change_reopen() {
    let t = with_projection(task("bl-5", "t", "in_progress", ""), 5, "open", None, None);
    match plan_task_push(&cfg(), &t) {
        Ok(TaskPush::Patch { state, .. }) => assert_eq!(state, "open"),
        _ => panic!("expected a patch"),
    }
    let b = push_with_reply(&cfg(), &t, reply(5, "u", "open")).unwrap();
    assert_eq!(b.last_synced_status, "in_progress");
}

#[test]
fn task_flag_must_name_the_stdin_task() {
    assert!(check_task_id("bl-1", &task("bl-1", "t", "open", "")).is_ok());
    match check_task_id("bl-2", &task("bl-1", "t", "open", "")) {
        Err(PluginError::Other(m)) => assert_eq!(m, "--task bl-2 does not match stdin task id bl-1"),
        _ => panic!("expected a mismatch"),
    }
}

#[test]
fn a_recorded_push_makes_the_next_push_a_noop() {
    let t = task("bl-8", "Ship", "open", "b");
    let b = push_with_reply(&cfg(), &t, reply(12, "u", "open")).unwrap();
    let again = with_projection(
        t.clone(),
        b.number,
        &b.last_synced_status,
        b.last_synced_title.as_deref(),
        b.last_synced_body_hash.as_deref(),
    );
    assert!(matches!(plan_task_push(&cfg(), &again), Ok(TaskPush::Noop)));
}
