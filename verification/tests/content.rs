use balls_github_issues::config::{CloseMirror, FORGE_PROJECTION_PREFIX};
use balls_github_issues::content::{body_hash, differs, mirror_close};
use balls_github_issues::merge::{merge_projection, merge_status, owned_projection_prefix};
use balls_github_issues::pull_content::{
    body_hash as pull_body_hash, decision, strip_marker, FieldDecision,
};

#[test]
fn hash_is_stable_and_distinguishes() {
    assert_eq!(body_hash(""), body_hash(""));
    assert_eq!(body_hash("hello").len(), 16);
    assert_ne!(body_hash("a"), body_hash("b"));
}

#[test]
fn differs_on_title_or_body() {
    assert!(!differs("T", "b", "T", "b"));
    assert!(differs("G", "b", "T", "b"));
    assert!(differs("T", "x", "T", "b"));
    assert!(differs("G", "x", "T", "b"));
}

#[test]
fn close_mirror_asymmetry() {
    assert!(mirror_close(true, true, CloseMirror::Authoritative));
    assert!(mirror_close(true, true, CloseMirror::BestEffort));
    assert!(!mirror_close(true, true, CloseMirror::Off));
    assert!(!mirror_close(false, true, CloseMirror::Authoritative));
    assert!(!mirror_close(true, false, CloseMirror::Authoritative));
}

#[test]
fn body_hash_is_the_fnv1a_digest_in_lower_hex() {
    assert_eq!(body_hash(""), "cbf29ce484222325");
    assert_eq!(body_hash("a"), "af63dc4c8601ec8c");
    assert_eq!(body_hash("é").len(), 16);
}

#[test]
fn projection_prefix_is_disjoint_from_forge() {
    let owned = owned_projection_prefix();
    assert_ne!(owned, FORGE_PROJECTION_PREFIX);
    assert!(!owned.starts_with(FORGE_PROJECTION_PREFIX));
    assert!(!FORGE_PROJECTION_PREFIX.starts_with(owned));
}

#[test]
fn merge_projection_picks_remote_when_present() {
    assert_eq!(merge_projection(Some("open"), Some("closed")), Some("closed"));
}

#[test]
fn merge_projection_keeps_local_when_remote_absent() {
    assert_eq!(merge_projection(Some("open"), None), Some("open"));
}

#[test]
fn merge_projection_returns_none_when_both_absent() {
    assert_eq!(merge_projection::<u8>(None, None), None);
}

#[test]
fn status_merge_authoritative_close() {
    assert_eq!(merge_status("open", "closed", CloseMirror::Authoritative), "closed");
    assert_eq!(merge_status("in_progress", "closed", CloseMirror::Authoritative), "closed");
}

#[test]
fn status_merge_already_closed_is_idempotent() {
    assert_eq!(merge_status("closed", "closed", CloseMirror::Authoritative), "closed");
}

#[test]
fn status_merge_gh_open_never_reopens_balls() {
    assert_eq!(merge_status("closed", "open", CloseMirror::Authoritative), "closed");
    assert_eq!(merge_status("in_progress", "open", CloseMirror::Authoritative), "in_progress");
}

#[test]
fn status_merge_close_mirror_off_protects_balls_status() {
    assert_eq!(merge_status("open", "closed", CloseMirror::Off), "open");
    assert_eq!(merge_status("in_progress", "closed", CloseMirror::Off), "in_progress");
}

#[test]
fn status_merge_best_effort_still_mirrors_close() {
    assert_eq!(merge_status("open", "closed", CloseMirror::BestEffort), "closed");
}

#[test]
fn body_hash_is_deterministic_and_constant_size() {
    let h1 = pull_body_hash("hello world");
    let h2 = pull_body_hash("hello world");
    assert_eq!(h1, h2);
    assert_eq!(h1.len(), 16);
    let h3 = pull_body_hash("hello world!");
    assert_ne!(h1, h3);
    assert_eq!(pull_body_hash("").len(), 16);
}

#[test]
fn strip_marker_removes_trailing_marker() {
    assert_eq!(strip_marker("Foo [bl-abcd]", "bl-abcd"), "Foo");
}

#[test]
fn strip_marker_leaves_title_when_marker_absent_or_wrong_id() {
    assert_eq!(strip_marker("Foo", "bl-abcd"), "Foo");
    assert_eq!(strip_marker("Foo [bl-other]", "bl-abcd"), "Foo [bl-other]");
    assert_eq!(strip_marker("Foo [bl-abcd] trailing", "bl-abcd"), "Foo [bl-abcd] trailing");
}

#[test]
fn decision_goes_by_who_moved() {
    assert_eq!(decision(false, false), FieldDecision::Noop);
    assert_eq!(decision(false, true), FieldDecision::Noop);
    assert_eq!(decision(true, false), FieldDecision::Mirror);
    assert_eq!(decision(true, true), FieldDecision::Conflict);
}
