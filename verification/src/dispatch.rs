//! The process surface: `protocol` self-describe, the human-run auth and
//! adoption subcommands, and `<op> <phase>` hook routing. This module decides;
//! the binary reads stdin, loads files, and calls GitHub.

use vstd::prelude::*;
use crate::config::{owner_name_spec, PluginConfig};
use crate::error::{debug_quoted, debug_str, message_spec, PluginError};
use crate::text::{chars_of, extend, lit, str_eq, string_of, trim, trim_chars};

verus! {

broadcast use vstd::string::group_string_axioms;

/// User-Agent for this plugin's GitHub calls.
pub const USER_AGENT: &'static str = "balls-plugin-github-issues";

/// The protocol self-description.
pub const PROTOCOL_JSON: &'static str = "{\"protocol\":1,\"ops\":[\"create\",\"update\",\"close\",\"drop\",\"sync\"]}";

/// What an argv asks for.
#[derive(Debug, Clone)]
pub enum Invocation {
    /// Print the protocol self-description.
    Protocol,
    /// Read a token from stdin, validate it, store it.
    AuthSetup,
    /// Validate the stored token.
    AuthCheck,
    /// Stamp markers onto the issues of a legacy task store.
    Adopt { legacy_dir: String, config: String },
    /// A lifecycle hook with its payload on stdin.
    Hook { op: String, phase: String },
}

/// The usage text.
pub open spec fn usage_message() -> Seq<char> {
    "usage: github-issues protocol | auth-setup | auth-check | adopt <legacy-tasks-dir> <config> | <op> <phase>"@
}

/// The invocation an argv names, if any.
pub open spec fn route_spec(args: Seq<Seq<char>>) -> Option<(int, Seq<Seq<char>>)> {
    if args.len() == 1 && args[0] == "protocol"@ {
        Some((0, args))
    } else if args.len() == 1 && args[0] == "auth-setup"@ {
        Some((1, args))
    } else if args.len() == 1 && args[0] == "auth-check"@ {
        Some((2, args))
    } else if args.len() == 3 && args[0] == "adopt"@ {
        Some((3, args))
    } else if args.len() == 2 {
        Some((4, args))
    } else {
        None
    }
}

/// Whether `inv` is the invocation `route_spec` names.
pub open spec fn invocation_matches(inv: Invocation, args: Seq<Seq<char>>) -> bool {
    match route_spec(args) {
        None => false,
        Some((k, a)) => match inv {
            Invocation::Protocol => k == 0,
            Invocation::AuthSetup => k == 1,
            Invocation::AuthCheck => k == 2,
            Invocation::Adopt { legacy_dir, config } => k == 3 && legacy_dir@ == a[1] && config@
                == a[2],
            Invocation::Hook { op, phase } => k == 4 && op@ == a[0] && phase@ == a[1],
        },
    }
}

/// Route an argv: the three single-word subcommands, `adopt <dir> <config>`,
/// any other pair as `<op> <phase>`, and a usage error for anything else.
pub fn route(args: &Vec<String>) -> (r: Result<Invocation, PluginError>)
    ensures
        match r {
            Ok(inv) => invocation_matches(inv, crate::pull::views(args@)),
            Err(e) => route_spec(crate::pull::views(args@)) is None && (e matches PluginError::Other(m)
                && m@ == usage_message()),
        },
{
    let ghost a = crate::pull::views(args@);
    if args.len() == 1 {
        assert(a[0] == args@[0]@);
        let w = args[0].as_str();
        if str_eq(w, "protocol") {
            return Ok(Invocation::Protocol);
        }
        if str_eq(w, "auth-setup") {
            return Ok(Invocation::AuthSetup);
        }
        if str_eq(w, "auth-check") {
            return Ok(Invocation::AuthCheck);
        }
    } else if args.len() == 3 {
        assert(a[0] == args@[0]@ && a[1] == args@[1]@ && a[2] == args@[2]@);
        if str_eq(args[0].as_str(), "adopt") {
            return Ok(Invocation::Adopt { legacy_dir: args[1].clone(), config: args[2].clone() });
        }
    } else if args.len() == 2 {
        assert(a[0] == args@[0]@ && a[1] == args@[1]@);
        return Ok(Invocation::Hook { op: args[0].clone(), phase: args[1].clone() });
    }
    Err(
        PluginError::Other(
            lit(
                "usage: github-issues protocol | auth-setup | auth-check | adopt <legacy-tasks-dir> <config> | <op> <phase>",
            ),
        ),
    )
}

/// What a hook does once its payload is read.
#[derive(Debug, Clone, Copy, PartialEq, Eq, Structural)]
pub enum HookGate {
    /// Not a slot this plugin acts in, or an import-driven op: exit 0.
    Skip,
    /// Mirror the sealed op out to GitHub.
    Push,
    /// Reconcile GitHub into balls.
    Pull,
}

/// Whether `(op, phase)` is a slot this plugin acts in.
pub open spec fn acts(op: Seq<char>, phase: Seq<char>) -> bool {
    phase == "post"@ && (op == "create"@ || op == "update"@ || op == "close"@ || op == "drop"@
        || op == "sync"@)
}

/// Which way a hook goes once its payload op matches argv.
pub open spec fn hook_gate_spec(op: Seq<char>, phase: Seq<char>, importing: bool) -> HookGate {
    if !acts(op, phase) {
        HookGate::Skip
    } else if op != "sync"@ && importing {
        HookGate::Skip
    } else if op == "sync"@ {
        HookGate::Pull
    } else {
        HookGate::Push
    }
}

/// The error for an argv op that differs from the payload's.
pub open spec fn op_mismatch_message(op: Seq<char>, payload_op: Seq<char>) -> Seq<char> {
    "argv op "@ + debug_str(op) + " != payload op "@ + debug_str(payload_op)
}

/// Gate a hook: the payload's op must match argv; only the post slots of the
/// mirrored ops act; an import-driven push slot suppresses itself.
pub fn hook_gate(op: &str, phase: &str, payload_op: &str, importing: bool) -> (r: Result<
    HookGate,
    PluginError,
>)
    ensures
        op@ != payload_op@ ==> (r matches Err(PluginError::Other(m)) && m@ == op_mismatch_message(
            op@,
            payload_op@,
        )),
        op@ == payload_op@ ==> r == Ok::<HookGate, PluginError>(hook_gate_spec(op@, phase@, importing)),
{
    if !str_eq(op, payload_op) {
        let mut v = chars_of("argv op ");
        extend(&mut v, &chars_of(debug_quoted(op).as_str()));
        extend(&mut v, &chars_of(" != payload op "));
        extend(&mut v, &chars_of(debug_quoted(payload_op).as_str()));
        return Err(PluginError::Other(string_of(&v)));
    }
    let post = str_eq(phase, "post");
    let is_sync = str_eq(op, "sync");
    let mirrored = str_eq(op, "create") || str_eq(op, "update") || str_eq(op, "close") || str_eq(
        op,
        "drop",
    ) || is_sync;
    if !(post && mirrored) {
        return Ok(HookGate::Skip);
    }
    if !is_sync && importing {
        return Ok(HookGate::Skip);
    }
    if is_sync {
        Ok(HookGate::Pull)
    } else {
        Ok(HookGate::Push)
    }
}

/// The token `auth-setup` stores: stdin trimmed, which must not be empty.
pub fn setup_token(stdin_text: &str) -> (r: Result<String, PluginError>)
    ensures
        trim(stdin_text@).len() == 0 ==> (r matches Err(PluginError::Auth(m)) && m@
            == "empty token on stdin"@),
        trim(stdin_text@).len() > 0 ==> (r matches Ok(t) && t@ == trim(stdin_text@)),
{
    let t = trim_chars(&chars_of(stdin_text));
    if t.len() == 0 {
        return Err(PluginError::Auth(lit("empty token on stdin")));
    }
    Ok(string_of(&t))
}

/// The `(owner, name)` a hook acts on, or a config error.
pub fn repo_of(cfg: &PluginConfig) -> (r: Result<(String, String), PluginError>)
    ensures
        match owner_name_spec(cfg.base.repo@) {
            Some((o, n)) => r matches Ok((ro, rn)) && ro@ == o && rn@ == n,
            None => r matches Err(PluginError::Config(m)) && m@ == "repo is not owner/name"@,
        },
{
    match cfg.owner_name() {
        Some((o, n)) => Ok((o, n)),
        None => Err(PluginError::Config(lit("repo is not owner/name"))),
    }
}

/// The exit code of a dispatched invocation, and the diagnostic for stderr:
/// success is 0; an error is 1, reported as `github-issues: <message>`.
pub fn run(outcome: &Result<(), PluginError>) -> (r: (i32, Option<String>))
    ensures
        outcome is Ok ==> r.0 == 0 && r.1 is None,
        outcome matches Err(e) ==> r.0 == 1 && (r.1 matches Some(m) && m@ == "github-issues: "@
            + message_spec(*e)),
{
    match outcome {
        Ok(()) => (0, None),
        Err(e) => {
            let mut v = chars_of("github-issues: ");
            extend(&mut v, &chars_of(e.message().as_str()));
            (1, Some(string_of(&v)))
        },
    }
}

/// Every op the protocol self-description lists acts in its `post` slot:
/// create, update, close and drop push out unless the import guard is set,
/// and sync pulls in even then; a `pre` slot never acts.
pub proof fn law_listed_ops_act_after_the_op(
    op: Seq<char>,
    phase: Seq<char>,
    importing: bool,
    r: Result<HookGate, PluginError>,
)
    requires
        r == Ok::<HookGate, PluginError>(hook_gate_spec(op, phase, importing)),
    ensures
        (op == "create"@ || op == "update"@ || op == "close"@ || op == "drop"@) && phase == "post"@
            && !importing ==> r == Ok::<HookGate, PluginError>(HookGate::Push),
        (op == "create"@ || op == "update"@ || op == "close"@ || op == "drop"@) && phase == "post"@
            && importing ==> r == Ok::<HookGate, PluginError>(HookGate::Skip),
        op == "sync"@ && phase == "post"@ ==> r == Ok::<HookGate, PluginError>(HookGate::Pull),
        phase == "pre"@ ==> r == Ok::<HookGate, PluginError>(HookGate::Skip),
{
    reveal_strlit("create");
    reveal_strlit("update");
    reveal_strlit("close");
    reveal_strlit("drop");
    reveal_strlit("sync");
    reveal_strlit("post");
    reveal_strlit("pre");
    assert("create"@ != "sync"@ && "update"@ != "sync"@ && "close"@ != "sync"@) by {
        assert("create"@.len() != "sync"@.len());
        assert("update"@.len() != "sync"@.len());
        assert("close"@.len() != "sync"@.len());
    }
    assert("drop"@ != "sync"@) by {
        assert("drop"@[0] != "sync"@[0]);
    }
    assert("pre"@ != "post"@) by {
        assert("pre"@.len() != "post"@.len());
    }
}

} // verus!
