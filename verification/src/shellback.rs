//! Shelling back to `bl`: the pull side mutates balls only through the
//! public verbs. This module builds their argument lists, reads the id that
//! `bl create` prints, and maps a run's outcome; the edge runs the process.

use vstd::prelude::*;
use crate::error::{debug_quoted, debug_str, PluginError};
use crate::marker::{is_id_chars, is_id_spec, opt_view};
use crate::pull::views;
use crate::text::{chars_of, extend, lit, string_of, trim, trim_chars};

verus! {

broadcast use vstd::string::group_string_axioms;

/// The env var set on every pull-driven `bl` call; the push handler skips
/// itself when it is present, so an import never echoes back out.
pub const IMPORT_GUARD: &'static str = "BALLS_GITHUB_ISSUES_IMPORTING";

/// A char that can be part of an id token in `bl` output.
pub open spec fn is_token_char(c: char) -> bool {
    ('0' <= c && c <= '9') || ('a' <= c && c <= 'z') || ('A' <= c && c <= 'Z') || c == '-'
}

/// The tokens of `s`: the pieces between non-token chars, empty ones included.
pub open spec fn tokens(s: Seq<char>) -> Seq<Seq<char>>
    decreases s.len(),
{
    if s.len() == 0 {
        seq![Seq::empty()]
    } else {
        let init = tokens(s.drop_last());
        if !is_token_char(s.last()) {
            init.push(Seq::empty())
        } else {
            init.update(init.len() - 1, init.last().push(s.last()))
        }
    }
}

/// The last of the first `n` tokens that has the minted id shape.
pub open spec fn last_id(toks: Seq<Seq<char>>, n: int) -> Option<Seq<char>>
    decreases n,
{
    if n <= 0 {
        None
    } else if is_id_spec(toks[n - 1]) {
        Some(toks[n - 1])
    } else {
        last_id(toks, n - 1)
    }
}

/// The id `bl` output names: its last minted-shape token.
pub open spec fn extract_id_spec(stdout: Seq<char>) -> Option<Seq<char>> {
    last_id(tokens(stdout), tokens(stdout).len() as int)
}

proof fn lemma_last_id_prefix(a: Seq<Seq<char>>, b: Seq<Seq<char>>, n: int)
    requires
        n <= a.len(),
        n <= b.len(),
        forall|i: int| 0 <= i < n ==> a[i] == b[i],
    ensures
        last_id(a, n) == last_id(b, n),
    decreases n,
{
    if n > 0 {
        lemma_last_id_prefix(a, b, n - 1);
    }
}

proof fn lemma_tokens_nonempty(s: Seq<char>)
    ensures
        tokens(s).len() >= 1,
    decreases s.len(),
{
    if s.len() > 0 {
        lemma_tokens_nonempty(s.drop_last());
    }
}

/// Scan `bl` stdout for a `bl-<hex>` id, returning the last one.
pub fn extract_id(stdout: &str) -> (r: Option<String>)
    ensures
        opt_view(r) == extract_id_spec(stdout@),
        r matches Some(id) ==> is_id_spec(id@),
{
    let v = chars_of(stdout);
    let mut cur: Vec<char> = Vec::new();
    let mut best: Option<Vec<char>> = None;
    let ghost mut done: Seq<Seq<char>> = Seq::empty();
    for i in 0..v.len()
        invariant
            tokens(v@.take(i as int)) == done.push(cur@),
            match best {
                Some(b) => last_id(done, done.len() as int) == Some(b@),
                None => last_id(done, done.len() as int) is None,
            },
    {
        proof {
            lemma_tokens_nonempty(v@.take(i as int));
            assert(v@.take(i + 1).drop_last() == v@.take(i as int));
        }
        let c = v[i];
        if ('0' <= c && c <= '9') || ('a' <= c && c <= 'z') || ('A' <= c && c <= 'Z') || c == '-' {
            let ghost prev = cur@;
            cur.push(c);
            proof {
                assert(done.push(cur@) == done.push(prev).update(done.len() as int, prev.push(c)));
            }
        } else {
            let ghost prev = done;
            proof {
                done = done.push(cur@);
                assert(done.drop_last() == prev);
                lemma_last_id_prefix(done, prev, prev.len() as int);
                lemma_last_id_minted(done, done.len() as int);
            }
            if is_id_chars(&cur) {
                best = Some(cur);
            }
            cur = Vec::new();
        }
    }
    assert(v@.take(v.len() as int) == v@);
    proof {
        lemma_last_id_prefix(done.push(cur@), done, done.len() as int);
        lemma_last_id_minted(done, done.len() as int);
    }
    if is_id_chars(&cur) {
        Some(string_of(&cur))
    } else {
        match best {
            Some(b) => Some(string_of(&b)),
            None => None,
        }
    }
}

/// The `-t <tag>` flag pairs for `tags`.
pub open spec fn tag_flags(tags: Seq<Seq<char>>) -> Seq<Seq<char>>
    decreases tags.len(),
{
    if tags.len() == 0 {
        Seq::empty()
    } else {
        tag_flags(tags.drop_last()) + seq!["-t"@, tags.last()]
    }
}

/// The argv of `bl create --body B [-t tag…] --as A -- TITLE`.
pub open spec fn create_args_spec(
    title: Seq<char>,
    body: Seq<char>,
    tags: Seq<Seq<char>>,
    actor: Seq<char>,
) -> Seq<Seq<char>> {
    seq!["create"@, "--body"@, body] + tag_flags(tags) + seq!["--as"@, actor, "--"@, title]
}

/// The arguments of `bl create`. The untrusted title rides behind `--`, so a
/// `-`-leading title stays a title; body and tags ride as flag values.
pub fn create_args(title: &str, body: &str, tags: &Vec<String>, actor: &str) -> (r: Vec<String>)
    ensures
        views(r@) == create_args_spec(title@, body@, views(tags@), actor@),
{
    let mut args: Vec<String> = Vec::new();
    args.push(lit("create"));
    args.push(lit("--body"));
    args.push(lit(body));
    for i in 0..tags.len()
        invariant
            views(args@) == seq!["create"@, "--body"@, body@] + tag_flags(views(tags@.take(i as int))),
    {
        let ghost before = args@;
        args.push(lit("-t"));
        args.push(tags[i].clone());
        assert(views(tags@.take(i + 1)).drop_last() == views(tags@.take(i as int)));
        assert(views(args@) == views(before) + seq!["-t"@, tags@[i as int]@]);
    }
    assert(tags@.take(tags.len() as int) == tags@);
    let ghost before = args@;
    args.push(lit("--as"));
    args.push(lit(actor));
    args.push(lit("--"));
    args.push(lit(title));
    assert(views(args@) == views(before) + seq!["--as"@, actor@, "--"@, title@]);
    args
}

/// The arguments of `bl update <id> -t <tag> --as <actor>`.
pub fn add_tag_args(id: &str, tag: &str, actor: &str) -> (r: Vec<String>)
    ensures
        views(r@) == seq!["update"@, id@, "-t"@, tag@, "--as"@, actor@],
{
    let mut args: Vec<String> = Vec::new();
    args.push(lit("update"));
    args.push(lit(id));
    args.push(lit("-t"));
    args.push(lit(tag));
    args.push(lit("--as"));
    args.push(lit(actor));
    assert(views(args@) =~= seq!["update"@, id@, "-t"@, tag@, "--as"@, actor@]);
    args
}

/// The arguments of `bl close <id> --as <actor>`.
pub fn close_args(id: &str, actor: &str) -> (r: Vec<String>)
    ensures
        views(r@) == seq!["close"@, id@, "--as"@, actor@],
{
    let mut args: Vec<String> = Vec::new();
    args.push(lit("close"));
    args.push(lit(id));
    args.push(lit("--as"));
    args.push(lit(actor));
    assert(views(args@) =~= seq!["close"@, id@, "--as"@, actor@]);
    args
}

/// The error for a `bl` run that exited non-zero.
pub open spec fn failed_message(verb: Seq<char>, stderr: Seq<char>) -> Seq<char> {
    "bl "@ + verb + " failed: "@ + trim(stderr)
}

/// The outcome of one `bl` run: its stdout on success, else an error naming
/// the verb with the trimmed stderr.
pub fn run_outcome(verb: &str, success: bool, stdout: String, stderr: &str) -> (r: Result<
    String,
    PluginError,
>)
    ensures
        success ==> r == Ok::<String, PluginError>(stdout),
        !success ==> (r matches Err(PluginError::Io(m)) && m@ == failed_message(verb@, stderr@)),
{
    if success {
        return Ok(stdout);
    }
    let mut v = chars_of("bl ");
    extend(&mut v, &chars_of(verb));
    extend(&mut v, &chars_of(" failed: "));
    extend(&mut v, &trim_chars(&chars_of(stderr)));
    Err(PluginError::Io(string_of(&v)))
}

/// The id of the ball `bl create` minted, read from its stdout.
pub fn created_id(stdout: &str) -> (r: Result<String, PluginError>)
    ensures
        match extract_id_spec(stdout@) {
            Some(id) => r matches Ok(s) && s@ == id,
            None => r matches Err(PluginError::Io(m)) && m@ == "bl create printed no id: "@
                + debug_str(stdout@),
        },
{
    match extract_id(stdout) {
        Some(id) => Ok(id),
        None => {
            let mut v = chars_of("bl create printed no id: ");
            extend(&mut v, &chars_of(debug_quoted(stdout).as_str()));
            Err(PluginError::Io(string_of(&v)))
        },
    }
}

/// Every id read from `bl` output has the minted shape, so it can never carry
/// a path separator into a path join.
pub proof fn law_extracted_ids_are_minted(stdout: Seq<char>)
    ensures
        extract_id_spec(stdout) matches Some(id) ==> is_id_spec(id) && !id.contains('/')
            && !id.contains('.'),
{
    let toks = tokens(stdout);
    lemma_last_id_minted(toks, toks.len() as int);
    if let Some(id) = extract_id_spec(stdout) {
        assert forall|i: int| 0 <= i < id.len() implies id[i] != '/' && id[i] != '.' by {
            if i >= 3 {
                assert(crate::marker::is_hex_lower(id[i]));
            }
        }
    }
}

proof fn lemma_last_id_minted(toks: Seq<Seq<char>>, n: int)
    ensures
        last_id(toks, n) matches Some(id) ==> is_id_spec(id),
    decreases n,
{
    if n > 0 && !is_id_spec(toks[n - 1]) {
        lemma_last_id_minted(toks, n - 1);
    }
}

/// The untrusted title is always the last argument, right behind `--`.
pub proof fn law_title_rides_behind_separator(
    title: Seq<char>,
    body: Seq<char>,
    tags: Seq<Seq<char>>,
    actor: Seq<char>,
)
    ensures
        ({
            let a = create_args_spec(title, body, tags, actor);
            &&& a.last() == title
            &&& a[a.len() - 2] == "--"@
        }),
{
}

} // verus!
