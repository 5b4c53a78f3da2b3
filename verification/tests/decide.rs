use balls_github_issues::issues_api::GhIssue;
use balls_github_issues::pull_content::{body_hash, decide_body, decide_title, pushed_title, FieldDecision};
use balls_github_issues::types::Task;

fn task(id: &str, title: &str, description: &str) -> Task {
    Task {
        id: id.into(),
        title: title.into(),
        status: "open".into(),
        description: description.into(),
        tags: Vec::new(),
        links: Vec::new(),
        target_branch: None,
        issue: None,
    }
}

fn issue(title: &str, body: Option<&str>) -> GhIssue {
    GhIssue {
        number: 1,
        title: title.into(),
        body: body.map(str::to_string),
        state: "open".into(),
        labels: Vec::new(),
        pull_request: false,
        html_url: "u".into(),
    }
}

#[test]
fn pushed_title_includes_marker() {
    assert_eq!(pushed_title(&task("bl-1234", "My task", "")), "My task [bl-1234]");
}

#[test]
fn decide_title_noop_when_neither_moved() {
    let t = task("bl-1", "X", "");
    assert_eq!(decide_title(&issue("X [bl-1]", None), &t, "X [bl-1]"), FieldDecision::Noop);
}

#[test]
fn decide_title_noop_when_only_balls_moved() {
    let t = task("bl-1", "Updated", "");
    assert_eq!(decide_title(&issue("Old [bl-1]", None), &t, "Old [bl-1]"), FieldDecision::Noop);
}

#[test]
fn decide_title_mirror_when_only_gh_moved() {
    let t = task("bl-1", "Original", "");
    assert_eq!(
        decide_title(&issue("Renamed in GH [bl-1]", None), &t, "Original [bl-1]"),
        FieldDecision::Mirror
    );
}

#[test]
fn decide_title_conflict_when_both_moved() {
    let t = task("bl-1", "Balls renamed", "");
    assert_eq!(
        decide_title(&issue("GH renamed [bl-1]", None), &t, "Original [bl-1]"),
        FieldDecision::Conflict
    );
}

#[test]
fn decide_body_noop_when_neither_moved() {
    let t = task("bl-1", "X", "body");
    let h = body_hash("body");
    assert_eq!(decide_body(&issue("X", Some("body")), &t, &h), FieldDecision::Noop);
}

#[test]
fn decide_body_mirror_when_only_gh_moved() {
    let t = task("bl-1", "X", "old");
    let h = body_hash("old");
    assert_eq!(decide_body(&issue("X", Some("new body from gh")), &t, &h), FieldDecision::Mirror);
}

#[test]
fn decide_body_conflict_when_both_moved() {
    let t = task("bl-1", "X", "balls edit");
    let h = body_hash("original");
    assert_eq!(decide_body(&issue("X", Some("gh edit")), &t, &h), FieldDecision::Conflict);
}

#[test]
fn decide_body_treats_missing_gh_body_as_empty() {
    let t = task("bl-1", "X", "");
    let h = body_hash("");
    assert_eq!(decide_body(&issue("X", None), &t, &h), FieldDecision::Noop);
}
