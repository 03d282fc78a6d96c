//! Validation of the single inbound redirect.
//!
//! The first request to the callback route is turned into exactly one
//! outcome: the authorization code on success, or the error the provider
//! reported, a locally synthesized `missing_code`, or a CSRF state mismatch.

use vstd::prelude::*;
use crate::errors::{OAuthError, OAuthErrorView};
use crate::params::pairs_view;

verus! {

/// The value of `key` among the parameters, later occurrences overriding
/// earlier ones (as in a map built by insertion), or `None` if absent.
pub open spec fn lookup_param(ps: Seq<(Seq<char>, Seq<char>)>, key: Seq<char>) -> Option<
    Seq<char>,
>
    decreases ps.len(),
{
    if ps.len() == 0 {
        None
    } else if ps.last().0 == key {
        Some(ps.last().1)
    } else {
        lookup_param(ps.drop_last(), key)
    }
}

/// The outcome owed for a redirect carrying the parameters `ps` while the
/// flow expects the state token `expected`:
/// - a provider-reported `error` parameter wins, with its description or
///   "Unknown error";
/// - otherwise a missing `code` parameter is a locally synthesized denial;
/// - otherwise a present `state` parameter that differs from the expected
///   token is a CSRF mismatch (an absent `state` skips the check);
/// - otherwise the value of `code`.
pub open spec fn callback_outcome(ps: Seq<(Seq<char>, Seq<char>)>, expected: Option<Seq<char>>) -> Result<
    Seq<char>,
    OAuthErrorView,
> {
    if lookup_param(ps, "error"@) is Some {
        Err(
            OAuthErrorView::AuthorizationFailed {
                error: lookup_param(ps, "error"@)->0,
                description: if lookup_param(ps, "error_description"@) is Some {
                    lookup_param(ps, "error_description"@)->0
                } else {
                    "Unknown error"@
                },
            },
        )
    } else if lookup_param(ps, "code"@) is None {
        Err(
            OAuthErrorView::AuthorizationFailed {
                error: "missing_code"@,
                description: "Authorization code not provided"@,
            },
        )
    } else if expected is Some && lookup_param(ps, "state"@) is Some && lookup_param(ps, "state"@)
        != Some(expected->0) {
        Err(OAuthErrorView::InvalidState)
    } else {
        Ok(lookup_param(ps, "code"@)->0)
    }
}

/// View of a callback result: the code's characters, or the error's model.
pub open spec fn code_result_view(r: Result<String, OAuthError>) -> Result<
    Seq<char>,
    OAuthErrorView,
> {
    match r {
        Ok(code) => Ok(code@),
        Err(e) => Err(e@),
    }
}

/// Looks `key` up in `params[..n]`, later occurrences overriding earlier ones.
fn get_param_prefix<'a>(params: &'a Vec<(String, String)>, key: &String, n: usize) -> (r: Option<
    &'a String,
>)
    requires
        n <= params@.len(),
    ensures
        match r {
            Some(v) => lookup_param(pairs_view(params@.take(n as int)), key@) == Some(v@),
            None => lookup_param(pairs_view(params@.take(n as int)), key@) is None,
        },
    decreases n,
{
    if n == 0 {
        proof {
            assert(pairs_view(params@.take(0)) =~= Seq::<(Seq<char>, Seq<char>)>::empty());
        }
        return None;
    }
    let ghost ps = pairs_view(params@.take(n as int));
    proof {
        assert(ps.len() == n);
        assert(ps.last() == (params@[n - 1].0@, params@[n - 1].1@));
        assert(ps.drop_last() =~= pairs_view(params@.take(n - 1)));
    }
    let pair = &params[n - 1];
    if pair.0 == *key {
        Some(&pair.1)
    } else {
        get_param_prefix(params, key, n - 1)
    }
}

/// The value of `key` among `params`, later occurrences overriding earlier
/// ones, or `None` if absent.
pub fn get_param<'a>(params: &'a Vec<(String, String)>, key: &String) -> (r: Option<&'a String>)
    ensures
        match r {
            Some(v) => lookup_param(pairs_view(params@), key@) == Some(v@),
            None => lookup_param(pairs_view(params@), key@) is None,
        },
{
    let r = get_param_prefix(params, key, params.len());
    proof {
        assert(params@.take(params@.len() as int) =~= params@);
    }
    r
}

/// Turns the parameters of the one inbound redirect into the flow's outcome,
/// validating them against the state token expected for this flow.
pub fn handle_callback(params: &Vec<(String, String)>, expected_state: Option<&String>) -> (r:
    Result<String, OAuthError>)
    ensures
        code_result_view(r) == callback_outcome(
            pairs_view(params@),
            match expected_state {
                Some(s) => Some(s@),
                None => None,
            },
        ),
{
    let error_key = String::from_str("error");
    if let Some(error) = get_param(params, &error_key) {
        let description_key = String::from_str("error_description");
        let description = match get_param(params, &description_key) {
            Some(d) => d.clone(),
            None => String::from_str("Unknown error"),
        };
        return Err(OAuthError::AuthorizationFailed { error: error.clone(), description });
    }
    let code_key = String::from_str("code");
    let code = match get_param(params, &code_key) {
        Some(c) => c.clone(),
        None => {
            return Err(
                OAuthError::AuthorizationFailed {
                    error: String::from_str("missing_code"),
                    description: String::from_str("Authorization code not provided"),
                },
            );
        },
    };
    let state_key = String::from_str("state");
    if let Some(state) = get_param(params, &state_key) {
        if let Some(expected) = expected_state {
            if !(*state == *expected) {
                return Err(OAuthError::InvalidState);
            }
        }
    }
    Ok(code)
}

} // verus!
