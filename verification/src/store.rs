//! Reading a ball from the store checkout: `tasks/<id>.md` is a `+++`-fenced
//! TOML frontmatter block (holding the `title`) followed by the markdown body.

use vstd::prelude::*;
use crate::marker::opt_view;
use crate::text::{
    chars_of, ends_with, ends_with_chars, extend, find_from, find_sub, lemma_find_from_shape,
    path_join, path_join_spec, starts_with, starts_with_chars, string_of, subvec,
};

verus! {

broadcast use vstd::string::group_string_axioms;

/// The balls-side view of one ball: its title and body.
#[derive(Debug, Clone, PartialEq, Eq)]
pub struct Ball {
    pub title: String,
    pub body: String,
}

/// The mathematical value of a [`Ball`].
pub struct BallView {
    pub title: Seq<char>,
    pub body: Seq<char>,
}

impl View for Ball {
    type V = BallView;

    open spec fn view(&self) -> BallView {
        BallView { title: self.title@, body: self.body@ }
    }
}

/// The `title` string a TOML document holds, if it parses as a table whose
/// `title` is a string.
pub uninterp spec fn toml_title(frontmatter: Seq<char>) -> Option<Seq<char>>;

/// Parses `frontmatter` with `toml::from_str` into a table and returns its
/// `title` entry when that is a string (named by [`toml_title`]).
#[verifier::external_body]
fn frontmatter_title(frontmatter: &str) -> (r: Option<String>)
    ensures
        opt_view(r) == toml_title(frontmatter@),
{
    match toml::from_str::<toml::Table>(frontmatter) {
        Ok(table) => table.get("title").and_then(|v| v.as_str()).map(|s| s.to_string()),
        Err(_) => None,
    }
}

/// The frontmatter and body of a ball file, if its fences are well placed:
/// it opens with `+++\n`, and the frontmatter ends at the first `\n+++\n`
/// (or at a final `\n+++`, leaving an empty body).
pub open spec fn split_ball(content: Seq<char>) -> Option<(Seq<char>, Seq<char>)> {
    if !starts_with(content, "+++\n"@) {
        None
    } else {
        let rest = content.skip(4);
        let i = find_from(rest, "\n+++\n"@, 0);
        if i >= 0 {
            Some((rest.take(i), rest.skip(i + 5)))
        } else if ends_with(rest, "\n+++"@) {
            Some((rest.take(rest.len() - 4), Seq::empty()))
        } else {
            None
        }
    }
}

/// The ball a file holds, if its fences are well placed and its frontmatter
/// has a string `title`.
pub open spec fn parse_spec(content: Seq<char>) -> Option<BallView> {
    match split_ball(content) {
        None => None,
        Some((fm, body)) => match toml_title(fm) {
            Some(t) => Some(BallView { title: t, body }),
            None => None,
        },
    }
}

/// Cut a ball file into its frontmatter and body, if its fences are well
/// placed.
pub fn split_frontmatter(content: &str) -> (r: Option<(String, String)>)
    ensures
        match r {
            Some((fm, body)) => split_ball(content@) == Some((fm@, body@)),
            None => split_ball(content@) is None,
        },
{
    proof {
        reveal_strlit("+++\n");
        reveal_strlit("\n+++\n");
        reveal_strlit("\n+++");
    }
    let v = chars_of(content);
    let open = chars_of("+++\n");
    if !starts_with_chars(&v, &open) {
        return None;
    }
    let rest = subvec(&v, 4, v.len());
    assert(rest@ == v@.skip(4));
    let fence = chars_of("\n+++\n");
    match find_sub(&rest, &fence) {
        Some(i) => {
            proof {
                lemma_find_from_shape(rest@, fence@, 0);
            }
            let fm = subvec(&rest, 0, i);
            let body = subvec(&rest, i + 5, rest.len());
            assert(fm@ == rest@.take(i as int));
            assert(body@ == rest@.skip(i + 5));
            Some((string_of(&fm), string_of(&body)))
        },
        None => {
            let close = chars_of("\n+++");
            if !ends_with_chars(&rest, &close) {
                return None;
            }
            let fm = subvec(&rest, 0, rest.len() - 4);
            assert(fm@ == rest@.take(rest@.len() - 4));
            Some((string_of(&fm), String::new()))
        },
    }
}

/// Parse a `tasks/<id>.md` file into a [`Ball`]. `None` if the fences are
/// missing or the frontmatter has no `title`: a malformed ball is skipped.
pub fn parse(content: &str) -> (r: Option<Ball>)
    ensures
        match r {
            Some(b) => parse_spec(content@) == Some(b@),
            None => parse_spec(content@) is None,
        },
{
    let (fm, body) = match split_frontmatter(content) {
        Some(parts) => parts,
        None => {
            return None;
        },
    };
    match frontmatter_title(fm.as_str()) {
        Some(title) => Some(Ball { title, body }),
        None => None,
    }
}

/// What reading a file gave.
#[derive(Debug, Clone)]
pub enum FileRead {
    /// The file's text.
    Contents(String),
    /// There is no such file.
    NotFound,
    /// Reading failed for another reason; the detail.
    Failed(String),
}

/// The ball a read of `tasks/<id>.md` gives: an absent file is an absent
/// (closed or dropped) ball, an unparseable one is skipped, any other read
/// failure is an error.
pub fn ball_from_read(read: FileRead) -> (r: Result<Option<Ball>, String>)
    ensures
        match read {
            FileRead::Contents(c) => r matches Ok(o) && match o {
                Some(b) => parse_spec(c@) == Some(b@),
                None => parse_spec(c@) is None,
            },
            FileRead::NotFound => r matches Ok(None),
            FileRead::Failed(m) => r == Err::<Option<Ball>, String>(m),
        },
{
    match read {
        FileRead::Contents(c) => Ok(parse(c.as_str())),
        FileRead::NotFound => Ok(None),
        FileRead::Failed(m) => Err(m),
    }
}

/// `<store>/tasks`.
pub fn tasks_dir(store: &str) -> (r: String)
    ensures
        r@ == path_join_spec(store@, "tasks"@),
{
    string_of(&path_join(&chars_of(store), "tasks"))
}

/// `<store>/tasks/<id>.md`, the file of ball `id`.
pub fn ball_path(store: &str, id: &str) -> (r: String)
    ensures
        r@ == path_join_spec(path_join_spec(store@, "tasks"@), id@ + ".md"@),
{
    let dir = path_join(&chars_of(store), "tasks");
    let mut name = chars_of(id);
    extend(&mut name, &chars_of(".md"));
    let file = string_of(&name);
    string_of(&path_join(&dir, file.as_str()))
}

} // verus!
