//! Plugin territory: the one subtree this plugin owns, where the token and the
//! reconciliation base live, project-scoped by mirroring the invocation path.

use vstd::prelude::*;
use crate::text::{
    chars_of, path_join, path_join_spec, string_of, subvec, trim_start_char, trim_start_char_chars,
};

verus! {

broadcast use vstd::string::group_string_axioms;

/// The XDG bases the territory derives from, resolved once at the process edge.
#[derive(Debug, Clone)]
pub struct Xdg {
    pub home: String,
    pub state_home: Option<String>,
}

/// `$XDG_STATE_HOME` if set, else `$HOME/.local/state`.
pub open spec fn state_root_spec(home: Seq<char>, state_home: Option<Seq<char>>) -> Seq<char> {
    match state_home {
        Some(s) => s,
        None => path_join_spec(path_join_spec(home, ".local"@), "state"@),
    }
}

/// `<state root>/balls/plugins/github-issues`.
pub open spec fn plugin_root_spec(state_root: Seq<char>) -> Seq<char> {
    path_join_spec(path_join_spec(path_join_spec(state_root, "balls"@), "plugins"@), "github-issues"@)
}

/// The invocation path with its leading `/`s stripped.
pub open spec fn mirror_spec(path: Seq<char>) -> Seq<char> {
    trim_start_char(path, '/')
}

/// Strip leading `/`s so an absolute invocation path becomes one relative
/// component group under the territory root.
pub fn mirror(path: &str) -> (r: String)
    ensures
        r@ == mirror_spec(path@),
{
    string_of(&trim_start_char_chars(&chars_of(path), '/'))
}

impl Xdg {
    /// `$XDG_STATE_HOME` if set, else the XDG default `$HOME/.local/state`.
    pub fn state_root(&self) -> (r: String)
        ensures
            r@ == state_root_spec(self.home@, crate::marker::opt_view(self.state_home)),
    {
        match &self.state_home {
            Some(s) => s.clone(),
            None => {
                let p = path_join(&chars_of(self.home.as_str()), ".local");
                string_of(&path_join(&p, "state"))
            },
        }
    }

    /// This plugin's territory for `invocation_path`:
    /// `…/balls/plugins/github-issues/<invocation-mirrored>`.
    pub fn territory(&self, invocation_path: &str) -> (r: String)
        ensures
            r@ == path_join_spec(
                plugin_root_spec(state_root_spec(self.home@, crate::marker::opt_view(self.state_home))),
                mirror_spec(invocation_path@),
            ),
    {
        let root = self.state_root();
        let p = path_join(&chars_of(root.as_str()), "balls");
        let p = path_join(&p, "plugins");
        let p = path_join(&p, "github-issues");
        let m = mirror(invocation_path);
        string_of(&path_join(&p, m.as_str()))
    }
}

proof fn lemma_trim_start_char_head(s: Seq<char>, c: char)
    ensures
        trim_start_char(s, c).len() == 0 || trim_start_char(s, c)[0] != c,
    decreases s.len(),
{
    if s.len() > 0 && s[0] == c {
        lemma_trim_start_char_head(s.drop_first(), c);
    }
}

/// A territory never escapes the plugin root by an absolute path: it is the
/// plugin root, a separator, and the invocation path without leading `/`s.
pub proof fn law_territory_under_plugin_root(state_root: Seq<char>, invocation_path: Seq<char>)
    ensures
        path_join_spec(plugin_root_spec(state_root), mirror_spec(invocation_path))
            == plugin_root_spec(state_root) + seq!['/'] + mirror_spec(invocation_path),
{
    lemma_trim_start_char_head(invocation_path, '/');
    reveal_strlit("github-issues");
    let a = path_join_spec(path_join_spec(state_root, "balls"@), "plugins"@);
    let root = plugin_root_spec(state_root);
    assert(root.len() > 0 && root.last() == 's') by {
        assert("github-issues"@.len() == 13);
        assert("github-issues"@[0] != '/');
        if a.len() == 0 {
            assert(root == "github-issues"@);
        } else if a.last() == '/' {
            assert(root == a + "github-issues"@);
            assert(root.last() == "github-issues"@.last());
        } else {
            assert(root == a + seq!['/'] + "github-issues"@);
            assert(root.last() == "github-issues"@.last());
        }
    }
}

} // verus!
