use balls_github_issues::dispatch::{route, run, Invocation};
use balls_github_issues::error::PluginError;

fn argv(words: &[&str]) -> Vec<String> {
    words.iter().map(|w| w.to_string()).collect()
}

fn exit_code_of(words: &[&str]) -> i32 {
    match route(&argv(words)) {
        Ok(_) => 0,
        Err(e) => run(&Err(e)).0,
    }
}

#[test]
fn an_unrecognized_invocation_exits_nonzero() {
    assert_ne!(exit_code_of(&["too", "many", "args"]), 0);
}

#[test]
fn a_hook_with_a_malformed_payload_exits_nonzero() {
    let inv = route(&argv(&["sync", "post"])).unwrap();
    assert!(matches!(inv, Invocation::Hook { .. }));
    let parsed: Result<serde_json::Value, _> = serde_json::from_str("not json");
    let outcome = parsed.map(|_| ()).map_err(|e| PluginError::Json(e.to_string()));
    let (code, diag) = run(&outcome);
    assert_ne!(code, 0);
    assert!(diag.unwrap().starts_with("github-issues: "));
}

#[test]
fn the_subcommands_route_by_name() {
    assert!(matches!(route(&argv(&["protocol"])), Ok(Invocation::Protocol)));
    assert!(matches!(route(&argv(&["auth-setup"])), Ok(Invocation::AuthSetup)));
    assert!(matches!(route(&argv(&["auth-check"])), Ok(Invocation::AuthCheck)));
    match route(&argv(&["adopt", "/legacy", "/cfg.json"])) {
        Ok(Invocation::Adopt { legacy_dir, config }) => {
            assert_eq!(legacy_dir, "/legacy");
            assert_eq!(config, "/cfg.json");
        },
        _ => panic!("adopt did not route"),
    }
    match route(&argv(&["create", "post"])) {
        Ok(Invocation::Hook { op, phase }) => {
            assert_eq!(op, "create");
            assert_eq!(phase, "post");
        },
        _ => panic!("hook did not route"),
    }
}

#[test]
fn the_usage_error_names_every_form() {
    match route(&argv(&[])) {
        Err(PluginError::Other(m)) => {
            assert!(m.starts_with("usage: github-issues protocol"));
            assert!(m.contains("<op> <phase>"));
        },
        _ => panic!("empty argv routed"),
    }
}

#[test]
fn a_success_exits_zero_silently() {
    assert_eq!(run(&Ok(())), (0, None));
}
