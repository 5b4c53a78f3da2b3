//! The GitHub REST client's own logic: the API root it talks to, the
//! headers it sends, and how a response status maps to an error.

use vstd::prelude::*;
use crate::error::PluginError;
use crate::text::{chars_of, extend, string_of, trim_end_char, trim_end_char_chars};

verus! {

broadcast use vstd::string::group_string_axioms;

/// The `Accept` header every request sends.
pub const ACCEPT: &'static str = "application/vnd.github+json";

/// The API root a client talks to: the given one without trailing slashes.
pub fn client_api_base(api_base: &str) -> (r: String)
    ensures
        r@ == trim_end_char(api_base@, '/'),
{
    string_of(&trim_end_char_chars(&chars_of(api_base), '/'))
}

/// The `Authorization` header value for `token`.
pub fn bearer(token: &str) -> (r: String)
    ensures
        r@ == "Bearer "@ + token@,
{
    let mut v = chars_of("Bearer ");
    extend(&mut v, &chars_of(token));
    string_of(&v)
}

/// The auth-check probe: `<api_base>/user`.
pub fn user_url(api_base: &str) -> (r: String)
    ensures
        r@ == api_base@ + "/user"@,
{
    let mut v = chars_of(api_base);
    extend(&mut v, &chars_of("/user"));
    string_of(&v)
}

/// Whether a status is a success (2xx).
pub open spec fn is_success(status: u16) -> bool {
    200 <= status <= 299
}

/// Map a response status: a 2xx passes, anything else is a GitHub API error
/// carrying the status and the body verbatim.
pub fn check_status(status: u16, body: String) -> (r: Result<(), PluginError>)
    ensures
        200 <= status <= 299 ==> r is Ok,
        !(200 <= status <= 299) ==> r == Err::<(), PluginError>(
            PluginError::GithubApi { status, body },
        ),
        is_success(status) <==> r is Ok,
{
    if 200 <= status && status <= 299 {
        Ok(())
    } else {
        Err(PluginError::GithubApi { status, body })
    }
}

/// Every 2xx status passes, whatever the body; every other status is a GitHub
/// API error carrying that status and body verbatim.
pub proof fn law_every_2xx_passes(status: u16, body: String, r: Result<(), PluginError>)
    requires
        200 <= status <= 299 ==> r is Ok,
        !(200 <= status <= 299) ==> r == Err::<(), PluginError>(
            PluginError::GithubApi { status, body },
        ),
        is_success(status) <==> r is Ok,
    ensures
        r is Ok <==> 200 <= status && status < 300,
        r matches Err(PluginError::GithubApi { status: s, body: b }) ==> s == status && b == body && (
        s < 200 || s >= 300),
        status == 200 || status == 201 || status == 202 || status == 204 ==> r is Ok,
{
}

} // verus!
