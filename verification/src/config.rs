//! Plugin configuration: the shared `repo`/`api_base` half and the three
//! issue-mirror policy knobs, plus where the committed config file lives.

use vstd::prelude::*;
use crate::error::{debug_quoted, debug_str, PluginError};
use crate::text::{
    chars_of, extend, first_index, first_index_of, lemma_first_index_of_shape, lit, path_join,
    path_join_spec, string_of, subvec, trim_end_char, trim_end_char_chars,
};

verus! {

broadcast use vstd::string::group_string_axioms;

/// The `external.*` projection namespace this plugin owns.
pub const PROJECTION_PREFIX: &'static str = "external.github-issues.";

/// The `external.*` projection namespace of the forge plugin.
pub const FORGE_PROJECTION_PREFIX: &'static str = "external.github.";

/// What to do when a GitHub issue closes externally.
#[derive(Debug, Clone, Copy, PartialEq, Eq, Structural)]
pub enum CloseMirror {
    /// A GitHub close closes the balls task (the default).
    Authoritative,
    /// The same inward mirror, failures treated as best-effort downstream.
    BestEffort,
    /// GitHub never owns status.
    Off,
}

impl Default for CloseMirror {
    fn default() -> (r: CloseMirror)
        ensures
            r == CloseMirror::Authoritative,
    {
        CloseMirror::Authoritative
    }
}

/// What to do when a mirrored GitHub issue vanishes from the repo.
#[derive(Debug, Clone, Copy, PartialEq, Eq, Structural)]
pub enum OnExternalDelete {
    /// Tag the task `deferred` (the default).
    Deferred,
    /// Close the task.
    Closed,
    /// Do nothing.
    Noop,
}

impl Default for OnExternalDelete {
    fn default() -> (r: OnExternalDelete)
        ensures
            r == OnExternalDelete::Deferred,
    {
        OnExternalDelete::Deferred
    }
}

/// The shared half of a plugin config: the repo and the API root.
#[derive(Debug, Clone)]
pub struct RepoConfig {
    /// `owner/name`.
    pub repo: String,
    /// API root; public GitHub unless overridden.
    pub api_base: String,
}

/// The API root used when a config names none.
pub open spec fn default_api_base_spec() -> Seq<char> {
    "https://api.github.com"@
}

/// The public GitHub API root.
pub fn default_api_base() -> (r: String)
    ensures
        r@ == default_api_base_spec(),
{
    lit("https://api.github.com")
}

/// `repo` split at its first `/` into `(owner, name)`, rejecting an empty
/// owner, an empty name, or a name holding another `/`.
pub open spec fn owner_name_spec(repo: Seq<char>) -> Option<(Seq<char>, Seq<char>)> {
    let i = first_index_of(repo, '/');
    if i < 0 {
        None
    } else {
        let owner = repo.take(i);
        let name = repo.skip(i + 1);
        if owner.len() == 0 || name.len() == 0 || name.contains('/') {
            None
        } else {
            Some((owner, name))
        }
    }
}

/// The message for a malformed `repo`.
pub open spec fn bad_repo_message(repo: Seq<char>) -> Seq<char> {
    "repo must be \"owner/name\", got "@ + debug_str(repo)
}

fn name_has_slash(v: &Vec<char>) -> (b: bool)
    ensures
        b == v@.contains('/'),
{
    match first_index(v, '/') {
        Some(_) => {
            proof {
                lemma_first_index_of_shape(v@, '/');
            }
            true
        },
        None => {
            proof {
                lemma_first_index_of_shape(v@, '/');
            }
            false
        },
    }
}

impl RepoConfig {
    /// Splits `repo` into `(owner, name)`, rejecting empty or nested forms.
    pub fn owner_name(&self) -> (r: Option<(String, String)>)
        ensures
            match r {
                Some((o, n)) => owner_name_spec(self.repo@) == Some((o@, n@)),
                None => owner_name_spec(self.repo@) is None,
            },
    {
        let v = chars_of(self.repo.as_str());
        let i = match first_index(&v, '/') {
            Some(i) => i,
            None => {
                return None;
            },
        };
        proof {
            lemma_first_index_of_shape(v@, '/');
        }
        let owner = subvec(&v, 0, i);
        let name = subvec(&v, i + 1, v.len());
        assert(owner@ == v@.take(i as int));
        assert(name@ == v@.skip(i + 1));
        if owner.len() == 0 || name.len() == 0 || name_has_slash(&name) {
            return None;
        }
        Some((string_of(&owner), string_of(&name)))
    }

    /// The API root without trailing slashes.
    pub fn api_base(&self) -> (r: String)
        ensures
            r@ == trim_end_char(self.api_base@, '/'),
    {
        string_of(&trim_end_char_chars(&chars_of(self.api_base.as_str()), '/'))
    }

    /// Fails if `repo` is not `owner/name`.
    pub fn validate(&self) -> (r: Result<(), PluginError>)
        ensures
            r is Ok <==> owner_name_spec(self.repo@) is Some,
            r matches Err(e) ==> e matches PluginError::Config(m) && m@ == bad_repo_message(
                self.repo@,
            ),
    {
        if self.owner_name().is_none() {
            let mut v = chars_of("repo must be \"owner/name\", got ");
            extend(&mut v, &chars_of(debug_quoted(self.repo.as_str()).as_str()));
            return Err(PluginError::Config(string_of(&v)));
        }
        Ok(())
    }
}

/// The owner/name split accepts exactly the strings `owner + "/" + name`
/// where both parts are non-empty and slash-free.
pub proof fn law_owner_name_shape(repo: Seq<char>, owner: Seq<char>, name: Seq<char>)
    ensures
        owner_name_spec(repo) == Some((owner, name)) <==> (repo == owner + seq!['/'] + name
            && owner.len() > 0 && name.len() > 0 && !owner.contains('/') && !name.contains('/')),
{
    lemma_first_index_of_shape(repo, '/');
    let i = first_index_of(repo, '/');
    if repo == owner + seq!['/'] + name && owner.len() > 0 && name.len() > 0 && !owner.contains(
        '/',
    ) && !name.contains('/') {
        assert(repo[owner.len() as int] == '/');
        if i != owner.len() {
            if i >= 0 && i < owner.len() {
                assert(repo[i] == owner[i]);
            }
            assert(false);
        }
        assert(repo.take(i) == owner);
        assert(repo.skip(i + 1) == name);
    }
    if owner_name_spec(repo) == Some((owner, name)) {
        assert(repo == repo.take(i) + seq!['/'] + repo.skip(i + 1));
        assert forall|j: int| 0 <= j < owner.len() implies owner[j] != '/' by {
            assert(owner[j] == repo[j]);
        }
    }
}

/// The issues-plugin config: the shared repo half and the three knobs.
#[derive(Debug, Clone)]
pub struct PluginConfig {
    pub base: RepoConfig,
    /// If set, only issues carrying this label are in sync scope.
    pub target_label: Option<String>,
    pub on_external_delete: OnExternalDelete,
    pub close_mirror: CloseMirror,
}

/// `<landing>/config/plugins/github-issues/config.json`.
pub open spec fn config_path_spec(landing: Seq<char>) -> Seq<char> {
    path_join_spec(
        path_join_spec(
            path_join_spec(path_join_spec(landing, "config"@), "plugins"@),
            "github-issues"@,
        ),
        "config.json"@,
    )
}

/// The committed config path under the landing checkout.
pub fn config_path(landing: &str) -> (r: String)
    ensures
        r@ == config_path_spec(landing@),
{
    let p = chars_of(landing);
    let p = path_join(&p, "config");
    let p = path_join(&p, "plugins");
    let p = path_join(&p, "github-issues");
    let p = path_join(&p, "config.json");
    string_of(&p)
}

/// The error a config load reports for a file that could not be read or decoded.
pub open spec fn load_error_message(path: Seq<char>, detail: Seq<char>) -> Seq<char> {
    path + ": "@ + detail
}

impl PluginConfig {
    /// Finish loading the config read from `path`: a read or decode failure
    /// (its detail in `decoded`) becomes a config error naming the path, and a
    /// decoded config is then validated.
    pub fn load(decoded: Result<PluginConfig, String>, path: &str) -> (r: Result<
        PluginConfig,
        PluginError,
    >)
        ensures
            match decoded {
                Err(detail) => r matches Err(PluginError::Config(m)) && m@ == load_error_message(
                    path@,
                    detail@,
                ),
                Ok(cfg) => if owner_name_spec(cfg.base.repo@) is Some {
                    r == Ok::<PluginConfig, PluginError>(cfg)
                } else {
                    r matches Err(PluginError::Config(m)) && m@ == bad_repo_message(
                        cfg.base.repo@,
                    )
                },
            },
    {
        match decoded {
            Err(detail) => {
                let mut v = chars_of(path);
                extend(&mut v, &chars_of(": "));
                extend(&mut v, &chars_of(detail.as_str()));
                Err(PluginError::Config(string_of(&v)))
            },
            Ok(cfg) => {
                match cfg.base.validate() {
                    Ok(()) => Ok(cfg),
                    Err(e) => Err(e),
                }
            },
        }
    }

    /// The API root without trailing slashes.
    pub fn api_base(&self) -> (r: String)
        ensures
            r@ == trim_end_char(self.base.api_base@, '/'),
    {
        self.base.api_base()
    }

    /// `(owner, name)` of the configured repo.
    pub fn owner_name(&self) -> (r: Option<(String, String)>)
        ensures
            match r {
                Some((o, n)) => owner_name_spec(self.base.repo@) == Some((o@, n@)),
                None => owner_name_spec(self.base.repo@) is None,
            },
    {
        self.base.owner_name()
    }
}

} // verus!
