//! The GitHub token, bound to the API root it was set up against: a config
//! whose `api_base` was rewritten fails closed instead of sending the token
//! to another host.

use vstd::prelude::*;
use crate::error::PluginError;
use crate::text::{chars_of, extend, path_join, path_join_spec, str_eq, string_of};

verus! {

broadcast use vstd::string::group_string_axioms;

/// The stored secret: a token and the API root it is bound to.
#[derive(Debug, Clone)]
pub struct Token {
    pub api_base: String,
    pub token: String,
}

/// `<auth_dir>/token.json`.
pub fn token_path(auth_dir: &str) -> (r: String)
    ensures
        r@ == path_join_spec(auth_dir@, "token.json"@),
{
    string_of(&path_join(&chars_of(auth_dir), "token.json"))
}

/// What reading the token file gave.
#[derive(Debug, Clone)]
pub enum TokenFile {
    /// The file could not be read; the detail.
    Missing(String),
    /// The file did not decode; the detail.
    Corrupt(String),
    /// The decoded token.
    Stored(Token),
}

/// The error for a token bound to another API root.
pub open spec fn mismatch_message(bound: Seq<char>, api_base: Seq<char>) -> Seq<char> {
    "token was set up for "@ + bound + ", but config now targets "@ + api_base
        + "; run auth-setup"@
}

/// Hand out the stored token, but only for the API root it was set up for.
pub fn load_token(file: TokenFile, api_base: &str) -> (r: Result<String, PluginError>)
    ensures
        match file {
            TokenFile::Missing(e) => r matches Err(PluginError::Auth(m)) && m@ == "no GitHub token ("@
                + e@ + "); run auth-setup"@,
            TokenFile::Corrupt(e) => r matches Err(PluginError::Auth(m)) && m@
                == "corrupt token file: "@ + e@,
            TokenFile::Stored(t) => if token_for(t.api_base@, t.token@, api_base@) is Some {
                r == Ok::<String, PluginError>(t.token)
            } else {
                r matches Err(PluginError::Auth(m)) && m@ == mismatch_message(t.api_base@, api_base@)
            },
        },
{
    match file {
        TokenFile::Missing(e) => {
            let mut v = chars_of("no GitHub token (");
            extend(&mut v, &chars_of(e.as_str()));
            extend(&mut v, &chars_of("); run auth-setup"));
            Err(PluginError::Auth(string_of(&v)))
        },
        TokenFile::Corrupt(e) => {
            let mut v = chars_of("corrupt token file: ");
            extend(&mut v, &chars_of(e.as_str()));
            Err(PluginError::Auth(string_of(&v)))
        },
        TokenFile::Stored(t) => {
            if !str_eq(t.api_base.as_str(), api_base) {
                let mut v = chars_of("token was set up for ");
                extend(&mut v, &chars_of(t.api_base.as_str()));
                extend(&mut v, &chars_of(", but config now targets "));
                extend(&mut v, &chars_of(api_base));
                extend(&mut v, &chars_of("; run auth-setup"));
                return Err(PluginError::Auth(string_of(&v)));
            }
            Ok(t.token)
        },
    }
}

/// The token to store for `api_base`.
pub fn bind_token(api_base: &str, token: &str) -> (r: Token)
    ensures
        r.api_base@ == api_base@,
        r.token@ == token@,
{
    Token { api_base: api_base.to_owned(), token: token.to_owned() }
}

/// The token a file bound to `bound` hands out for `api_base`.
pub open spec fn token_for(bound: Seq<char>, token: Seq<char>, api_base: Seq<char>) -> Option<Seq<char>> {
    if bound == api_base {
        Some(token)
    } else {
        None
    }
}

/// A token saved for one API root is handed back for that root, and for no
/// other: the credential never follows a rewritten `api_base`.
pub proof fn law_token_bound_to_api_base(saved_for: Seq<char>, token: Seq<char>, api_base: Seq<char>)
    ensures
        token_for(saved_for, token, saved_for) == Some(token),
        api_base != saved_for ==> token_for(saved_for, token, api_base) is None,
{
}

} // verus!
