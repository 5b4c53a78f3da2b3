use balls_github_issues::base::{Base, Snapshot};
use balls_github_issues::config::{CloseMirror, OnExternalDelete, PluginConfig, RepoConfig};
use balls_github_issues::content::body_hash;
use balls_github_issues::issues_api::{GhIssue, GhLabel};
use balls_github_issues::pull::{
    apply_linked, apply_sweep, in_scope, known_numbers, link_of, plan_autocreate, plan_linked,
    record_autocreate, stamp_patch, sweep_action, vanished, AutoPlan, Link, LinkedPlan, SweepAction,
};
use balls_github_issues::shellback::{create_args, created_id};
use balls_github_issues::store::{parse, Ball};

const NEW_ID: &str = "bl-abcd";

fn cfg(delete: OnExternalDelete, close: CloseMirror, label: Option<&str>) -> PluginConfig {
    PluginConfig {
        base: RepoConfig { repo: "o/n".into(), api_base: "http://x".into() },
        target_label: label.map(str::to_string),
        on_external_delete: delete,
        close_mirror: close,
    }
}

fn gh(number: u64, title: &str, state: &str, body: &str, labels: &[&str]) -> GhIssue {
    GhIssue {
        number,
        title: title.into(),
        body: Some(body.into()),
        state: state.into(),
        labels: labels.iter().map(|n| GhLabel { name: (*n).into() }).collect(),
        pull_request: false,
        html_url: String::new(),
    }
}

fn ball(title: &str, body: &str) -> Ball {
    parse(&format!("+++\ntitle = \"{title}\"\ncreated = 1\nupdated = 1\n+++\n{body}")).unwrap()
}

fn snap(number: u64, title: &str, body: &str, state: &str) -> Snapshot {
    Snapshot { number, title: title.into(), body_hash: body_hash(body), state: state.into() }
}

fn linked(issue: &GhIssue, base: &Base) -> (String, String) {
    match link_of(issue, base) {
        Link::Linked { id, bare } => (id, bare),
        Link::Unlinked { .. } => panic!("expected a link"),
    }
}

#[test]
fn autocreate_imports_open_unmarked_issue() {
    let c = cfg(OnExternalDelete::Deferred, CloseMirror::Authoritative, None);
    let issue = gh(5, "External", "open", "rep", &[]);
    let mut base = Base::default();
    let bare = match link_of(&issue, &base) {
        Link::Unlinked { bare } => bare,
        _ => panic!("expected no link"),
    };
    let mut created = 0usize;
    match plan_autocreate(&bare, &issue, &c, created) {
        AutoPlan::Create { title, body, labels } => {
            let argv = create_args(&title, &body, &labels, "tester");
            assert_eq!(argv.join(" "), "create --body rep --as tester -- External");
            let id = created_id(&format!("create {NEW_ID}\n")).unwrap();
            let patch = stamp_patch(&bare, &id);
            assert_eq!(patch.title.as_deref(), Some("External [bl-abcd]"));
            record_autocreate(&mut base, &mut created, &id, &bare, &body, &issue);
        },
        _ => panic!("expected a create"),
    }
    let s = base.get(NEW_ID).unwrap();
    assert_eq!(s.number, 5);
    assert_eq!(s.title, "External");
    assert_eq!(created, 1);
}

#[test]
fn linked_issue_reasserts_content_when_drifted() {
    let c = cfg(OnExternalDelete::Deferred, CloseMirror::Authoritative, None);
    let issue = gh(9, "Drifted [bl-1a2b]", "open", "old", &[]);
    let mut base = Base::default();
    let (id, bare) = linked(&issue, &base);
    let plan = plan_linked(&id, &bare, &issue, Some(ball("Real title", "real body")), &c);
    match &plan {
        LinkedPlan::Keep { reassert: Some(p), .. } => {
            assert_eq!(p.title.as_deref(), Some("Real title [bl-1a2b]"));
            assert_eq!(p.body.as_deref(), Some("real body"));
            assert!(p.state.is_none());
        },
        _ => panic!("expected a re-assert"),
    }
    apply_linked(&mut base, &id, plan);
    assert_eq!(base.get("bl-1a2b").unwrap().title, "Real title");
}

#[test]
fn linked_issue_converged_makes_no_patch() {
    let c = cfg(OnExternalDelete::Deferred, CloseMirror::Authoritative, None);
    let issue = gh(9, "Same [bl-1a2b]", "open", "body", &[]);
    let mut base = Base::default();
    let (id, bare) = linked(&issue, &base);
    let plan = plan_linked(&id, &bare, &issue, Some(ball("Same", "body")), &c);
    assert!(matches!(plan, LinkedPlan::Keep { reassert: None, .. }));
    apply_linked(&mut base, &id, plan);
    assert_eq!(base.get("bl-1a2b").unwrap().number, 9);
}

#[test]
fn close_mirror_closes_live_task() {
    let c = cfg(OnExternalDelete::Deferred, CloseMirror::BestEffort, None);
    let issue = gh(9, "T [bl-1a2b]", "closed", "b", &[]);
    let mut base = Base::default();
    base.set("bl-1a2b", snap(9, "T", "b", "open"));
    let (id, bare) = linked(&issue, &base);
    let plan = plan_linked(&id, &bare, &issue, Some(ball("T", "b")), &c);
    assert!(matches!(plan, LinkedPlan::CloseTask));
    apply_linked(&mut base, &id, plan);
    assert!(base.get("bl-1a2b").is_none());
}

#[test]
fn close_mirror_off_reasserts_instead() {
    let c = cfg(OnExternalDelete::Deferred, CloseMirror::Off, None);
    let issue = gh(9, "T [bl-1a2b]", "closed", "b", &[]);
    let mut base = Base::default();
    let (id, bare) = linked(&issue, &base);
    let plan = plan_linked(&id, &bare, &issue, Some(ball("T", "b")), &c);
    assert!(matches!(plan, LinkedPlan::Keep { reassert: None, .. }));
    apply_linked(&mut base, &id, plan);
    assert_eq!(base.get("bl-1a2b").unwrap().state, "closed");
}

#[test]
fn linked_task_gone_catches_up_close() {
    let c = cfg(OnExternalDelete::Deferred, CloseMirror::Authoritative, None);
    let issue = gh(9, "Ghost [bl-dead]", "open", "", &[]);
    let mut base = Base::default();
    base.set("bl-dead", snap(9, "Ghost", "", "open"));
    let (id, bare) = linked(&issue, &base);
    let plan = plan_linked(&id, &bare, &issue, None, &c);
    assert!(matches!(plan, LinkedPlan::Gone { close_issue: true }));
    apply_linked(&mut base, &id, plan);
    assert!(base.get("bl-dead").is_none());
}

#[test]
fn sweep_defers_then_closes_vanished_issues() {
    let mut base = Base::default();
    base.set("bl-gone", snap(3, "G", "b", "open"));
    base.set("bl-dead", snap(4, "D", "b", "open"));
    let known = known_numbers(&Vec::new());
    let gone = vanished(&base, &known);
    assert_eq!(gone, vec!["bl-dead".to_string(), "bl-gone".to_string()]);
    for id in &gone {
        let live = id == "bl-gone";
        let action = sweep_action(live, OnExternalDelete::Deferred);
        if live {
            assert_eq!(action, SweepAction::Defer);
        } else {
            assert_eq!(action, SweepAction::Forget);
        }
        apply_sweep(&mut base, id, action);
    }
    assert!(base.get("bl-dead").is_none());
    assert!(base.get("bl-gone").is_some());

    let mut base2 = Base::default();
    base2.set("bl-gone", snap(3, "G", "b", "open"));
    let action = sweep_action(true, OnExternalDelete::Closed);
    assert_eq!(action, SweepAction::CloseAndForget);
    apply_sweep(&mut base2, "bl-gone", action);
    assert!(base2.get("bl-gone").is_none());
}

#[test]
fn sweep_noop_policy_leaves_task() {
    let mut base = Base::default();
    base.set("bl-gone", snap(3, "G", "b", "open"));
    let action = sweep_action(true, OnExternalDelete::Noop);
    assert_eq!(action, SweepAction::Keep);
    apply_sweep(&mut base, "bl-gone", action);
    assert!(base.get("bl-gone").is_some());
}

#[test]
fn target_label_filters_and_closed_issues_are_not_imported() {
    let c = cfg(OnExternalDelete::Deferred, CloseMirror::Authoritative, Some("track"));
    let unlabelled = gh(1, "unlabelled", "open", "", &[]);
    let done = gh(2, "done", "closed", "", &["track"]);
    assert!(!in_scope(&unlabelled, &c));
    assert!(in_scope(&done, &c));
    assert!(matches!(plan_autocreate("done", &done, &c, 0), AutoPlan::Skip));
}

#[test]
fn a_vanished_issue_is_one_whose_number_is_not_listed() {
    let mut base = Base::default();
    base.set("bl-a", snap(1, "A", "", "open"));
    base.set("bl-b", snap(2, "B", "", "open"));
    let listed = vec![gh(2, "B [bl-b]", "open", "", &[])];
    assert_eq!(vanished(&base, &known_numbers(&listed)), vec!["bl-a".to_string()]);
}
