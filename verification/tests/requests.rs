use balls_github_issues::http::{bearer, user_url};
use balls_github_issues::issues_api::{collect_page, issue_url, issues_url, list_url, next_page, GhIssue};
use balls_github_issues::shellback::{add_tag_args, close_args};
use balls_github_issues::store::{ball_from_read, ball_path, tasks_dir, FileRead};

fn gh(number: u64, pull_request: bool) -> GhIssue {
    GhIssue {
        number,
        title: format!("#{number}"),
        body: None,
        state: "open".into(),
        labels: Vec::new(),
        pull_request,
        html_url: String::new(),
    }
}

#[test]
fn add_tag_and_close_argv_carry_the_actor() {
    assert_eq!(add_tag_args("bl-1", "deferred", "tester").join(" "), "update bl-1 -t deferred --as tester");
    assert_eq!(close_args("bl-2", "tester").join(" "), "close bl-2 --as tester");
}

#[test]
fn request_urls_follow_the_repo() {
    assert_eq!(issues_url("https://h", "o", "n"), "https://h/repos/o/n/issues");
    assert_eq!(issue_url("https://h", "o", "n", 42), "https://h/repos/o/n/issues/42");
    assert_eq!(list_url("https://h", "o", "n"), "https://h/repos/o/n/issues?state=all&per_page=100");
    assert_eq!(user_url("https://h"), "https://h/user");
    assert_eq!(bearer("tok"), "Bearer tok");
}

#[test]
fn list_issues_paginates_and_drops_prs() {
    let mut all = Vec::new();
    collect_page(&mut all, vec![gh(1, false), gh(2, true)]);
    let next = next_page(Some(r#"<https://h/p2>; rel="next""#));
    assert_eq!(next.as_deref(), Some("https://h/p2"));
    collect_page(&mut all, vec![gh(3, false)]);
    assert_eq!(next_page(None), None);
    let numbers: Vec<u64> = all.iter().map(|i| i.number).collect();
    assert_eq!(numbers, vec![1, 3]);
}

#[test]
fn ball_reads_present_and_absent() {
    assert_eq!(tasks_dir("/s"), "/s/tasks");
    assert_eq!(ball_path("/s", "bl-1"), "/s/tasks/bl-1.md");
    let present = ball_from_read(FileRead::Contents("+++\ntitle = \"T\"\n+++\nbody\n".into()));
    assert_eq!(present.unwrap().unwrap().title, "T");
    assert!(ball_from_read(FileRead::NotFound).unwrap().is_none());
}

#[test]
fn a_failed_ball_read_propagates() {
    assert_eq!(ball_from_read(FileRead::Failed("Is a directory".into())), Err("Is a directory".to_string()));
    assert!(ball_from_read(FileRead::Contents("garbage".into())).unwrap().is_none());
}
