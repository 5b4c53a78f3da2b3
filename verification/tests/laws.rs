use balls_github_issues::adopt::{adopt_target, has_json_extension, restamp, LegacyTask, Outcome, Summary};
use balls_github_issues::base::{Base, Snapshot};
use balls_github_issues::cli::Command;
use balls_github_issues::config::{CloseMirror, OnExternalDelete, PluginConfig, RepoConfig};
use balls_github_issues::issues_api::GhIssue;
use balls_github_issues::marker::{append, strip};
use balls_github_issues::pull::{apply_linked, link_of, plan_linked, Link};
use balls_github_issues::pull_emit::deleted_from;
use balls_github_issues::push::{plan_upsert, UpsertPlan};
use balls_github_issues::shellback::{create_args, extract_id};
use balls_github_issues::store::{parse, split_frontmatter};
use balls_github_issues::territory::Xdg;
use balls_github_issues::types::{IssueProjection, Task};

fn cfg(policy: OnExternalDelete) -> PluginConfig {
    PluginConfig {
        base: RepoConfig { repo: "o/n".into(), api_base: "http://x".into() },
        target_label: None,
        on_external_delete: policy,
        close_mirror: CloseMirror::Authoritative,
    }
}

#[test]
fn a_sync_that_kept_an_open_link_makes_the_next_push_a_noop() {
    let issue = GhIssue {
        number: 4,
        title: "Drift [bl-00aa]".into(),
        body: Some("gh".into()),
        state: "open".into(),
        labels: Vec::new(),
        pull_request: false,
        html_url: String::new(),
    };
    let ball = parse("+++\ntitle = \"Mine\"\n+++\nmine").unwrap();
    let mut base = Base::new();
    let (id, bare) = match link_of(&issue, &base) {
        Link::Linked { id, bare } => (id, bare),
        Link::Unlinked { .. } => panic!("expected a link"),
    };
    let plan = plan_linked(&id, &bare, &issue, Some(ball.clone()), &cfg(OnExternalDelete::Deferred));
    apply_linked(&mut base, &id, plan);
    assert!(matches!(plan_upsert(&base, &id, Some(ball)), Ok(UpsertPlan::Unchanged)));
}

#[test]
fn a_delete_flip_is_not_repeated_once_landed() {
    let mut t = Task {
        id: "bl-1".into(),
        title: "t".into(),
        status: "open".into(),
        description: String::new(),
        tags: Vec::new(),
        links: Vec::new(),
        target_branch: None,
        issue: Some(IssueProjection {
            number: Some(3),
            url: None,
            state: None,
            source: None,
            synced_at: None,
            last_synced_status: None,
            last_synced_title: None,
            last_synced_body_hash: None,
        }),
    };
    let c = cfg(OnExternalDelete::Deferred);
    let upd = deleted_from(&t, &c).unwrap();
    t.status = upd.fields.status.unwrap();
    assert!(deleted_from(&t, &c).is_none());
}

#[test]
fn a_stamped_issue_links_back_to_its_ball() {
    let (bare, id) = strip("Bug report");
    assert!(id.is_none());
    let stamped = append(&bare, "bl-beef");
    let issue = GhIssue {
        number: 8,
        title: stamped,
        body: None,
        state: "open".into(),
        labels: Vec::new(),
        pull_request: false,
        html_url: String::new(),
    };
    match link_of(&issue, &Base::new()) {
        Link::Linked { id, bare: b } => {
            assert_eq!(id, "bl-beef");
            assert_eq!(b, "Bug report");
        },
        Link::Unlinked { .. } => panic!("expected a link"),
    }
}

#[test]
fn the_base_link_is_used_when_the_marker_is_gone() {
    let mut base = Base::new();
    base.set("bl-0001", Snapshot { number: 8, title: "T".into(), body_hash: "h".into(), state: "open".into() });
    let issue = GhIssue {
        number: 8,
        title: "Renamed without marker".into(),
        body: None,
        state: "open".into(),
        labels: Vec::new(),
        pull_request: false,
        html_url: String::new(),
    };
    assert!(matches!(link_of(&issue, &base), Link::Linked { id, .. } if id == "bl-0001"));
}

#[test]
fn a_hostile_title_stays_behind_the_separator() {
    let argv = create_args("--as evil", "b", &vec!["x".to_string()], "me");
    assert_eq!(argv, vec!["create", "--body", "b", "-t", "x", "--as", "me", "--", "--as evil"]);
}

#[test]
fn extracted_ids_never_carry_a_path() {
    assert_eq!(extract_id("made bl-../../etc"), None);
    assert_eq!(extract_id("made bl-abc/def"), None);
    assert_eq!(extract_id("made bl-abcd."), Some("bl-abcd".to_string()));
}

#[test]
fn a_territory_stays_under_the_plugin_root() {
    let x = Xdg { home: "/h".into(), state_home: None };
    assert_eq!(x.territory("//abs/p"), "/h/.local/state/balls/plugins/github-issues/abs/p");
    assert_eq!(x.territory(""), "/h/.local/state/balls/plugins/github-issues/");
}

#[test]
fn the_frontmatter_split_finds_the_first_closing_fence() {
    assert_eq!(
        split_frontmatter("+++\na = 1\n+++\nbody\n+++\nmore"),
        Some(("a = 1".to_string(), "body\n+++\nmore".to_string()))
    );
    assert_eq!(split_frontmatter("+++\na = 1\n+++"), Some(("a = 1".to_string(), String::new())));
    assert_eq!(split_frontmatter("a = 1\n+++\n"), None);
}

#[test]
fn subcommands_keep_their_argv_spelling() {
    let c = |s: &str| s.to_string();
    assert_eq!(Command::AuthSetup { config: c("c"), auth_dir: c("d") }.name(), "auth-setup");
    assert_eq!(Command::AuthCheck { config: c("c"), auth_dir: c("d") }.name(), "auth-check");
    assert_eq!(Command::Push { task: c("t"), config: c("c"), auth_dir: c("d") }.name(), "push");
    assert_eq!(Command::Sync { task: None, config: c("c"), auth_dir: c("d") }.name(), "sync");
}

#[test]
fn owner_and_name_split_at_the_only_slash() {
    let r = RepoConfig { repo: "acme/widgets".into(), api_base: "x".into() };
    assert_eq!(r.owner_name(), Some(("acme".to_string(), "widgets".to_string())));
    let e = RepoConfig { repo: "a//b".into(), api_base: "x".into() }.validate().unwrap_err();
    assert_eq!(e.message(), "config error: repo must be \"owner/name\", got \"a//b\"");
}

#[test]
fn empty_summaries_and_reports_start_at_zero() {
    let s = Summary::default();
    assert_eq!((s.stamped, s.skipped), (0, 0));
    let r = balls_github_issues::types::SyncReport::default();
    assert!(r.created.is_empty() && r.updated.is_empty() && r.deleted.is_empty());
}

#[test]
fn a_summary_counts_each_outcome() {
    let mut s = Summary::default();
    s.record(Outcome::Stamped);
    s.record(Outcome::Skipped);
    s.record(Outcome::Stamped);
    assert_eq!((s.stamped, s.skipped), (2, 1));
}

#[test]
fn adopt_targets_only_live_mirrored_tasks() {
    let t = |status: &str, n: Option<u64>| LegacyTask { id: "bl-1a2b".into(), status: status.into(), issue_number: n };
    assert_eq!(adopt_target(&t("open", Some(7))), Some(7));
    assert_eq!(adopt_target(&t("closed", Some(7))), None);
    assert_eq!(adopt_target(&t("open", None)), None);
    assert_eq!(restamp("Old", "bl-1a2b"), Some("Old [bl-1a2b]".to_string()));
    assert_eq!(restamp("Old [bl-1a2b]", "bl-1a2b"), None);
    assert!(has_json_extension("bl-1.json"));
    assert!(!has_json_extension("notes.txt"));
    assert!(!has_json_extension(".json"));
}
