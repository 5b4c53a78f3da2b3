//! The error type every fallible operation of the plugin returns.

use vstd::prelude::*;
use crate::text::{chars_of, decimal, decimal_chars, extend, string_of};

verus! {

broadcast use vstd::string::group_string_axioms;

/// What went wrong, with the detail the operator sees.
#[derive(Debug, Clone, PartialEq, Eq)]
pub enum PluginError {
    /// No usable GitHub token.
    Auth(String),
    /// A config file that is missing, unreadable or malformed.
    Config(String),
    /// GitHub answered with a non-2xx status.
    GithubApi { status: u16, body: String },
    /// The request never got an answer.
    Http(String),
    /// A local file or process failed.
    Io(String),
    /// A JSON document did not decode.
    Json(String),
    /// Anything else.
    Other(String),
}

/// The rendering of an error for the operator.
pub open spec fn message_spec(e: PluginError) -> Seq<char> {
    match e {
        PluginError::Auth(m) => "auth error: "@ + m@,
        PluginError::Config(m) => "config error: "@ + m@,
        PluginError::GithubApi { status, body } => "GitHub API error "@ + decimal(status as nat)
            + ": "@ + body@,
        PluginError::Http(m) => "HTTP error: "@ + m@,
        PluginError::Io(m) => "I/O error: "@ + m@,
        PluginError::Json(m) => "JSON error: "@ + m@,
        PluginError::Other(m) => m@,
    }
}

fn prefixed(prefix: &str, m: &String) -> (r: String)
    ensures
        r@ == prefix@ + m@,
{
    let mut v = chars_of(prefix);
    extend(&mut v, &chars_of(m.as_str()));
    string_of(&v)
}

/// What std's `Debug` renders for a string: quoted, with escapes.
pub uninterp spec fn debug_str(s: Seq<char>) -> Seq<char>;

/// std's `Debug` rendering of `s` (`format!("{:?}", s)`), named by [`debug_str`].
#[verifier::external_body]
pub fn debug_quoted(s: &str) -> (r: String)
    ensures
        r@ == debug_str(s@),
{
    format!("{:?}", s)
}

impl PluginError {
    /// The message an operator sees for this error.
    pub fn message(&self) -> (r: String)
        ensures
            r@ == message_spec(*self),
    {
        match self {
            PluginError::Auth(m) => prefixed("auth error: ", m),
            PluginError::Config(m) => prefixed("config error: ", m),
            PluginError::GithubApi { status, body } => {
                let mut v = chars_of("GitHub API error ");
                extend(&mut v, &decimal_chars(*status as u64));
                extend(&mut v, &chars_of(": "));
                extend(&mut v, &chars_of(body.as_str()));
                string_of(&v)
            },
            PluginError::Http(m) => prefixed("HTTP error: ", m),
            PluginError::Io(m) => prefixed("I/O error: ", m),
            PluginError::Json(m) => prefixed("JSON error: ", m),
            PluginError::Other(m) => m.clone(),
        }
    }
}

} // verus!
