//! Decisions on the provider's token-endpoint and profile-endpoint replies.
//!
//! The transport layer performs the outbound requests and hands back an
//! [`EndpointReply`]: a success status with the parse attempt of its JSON
//! body, or a non-success status with the raw body text. The functions here
//! make every decision that follows.

use vstd::prelude::*;
use crate::errors::{OAuthError, OAuthErrorView};
use crate::models::{IntercomUser, TokenResponse};

verus! {

/// What one call of a provider endpoint produced, once the transport is done:
/// a success status together with the outcome of parsing its JSON body
/// (`Err` carries the parser's message), or a non-success status together
/// with the body text.
#[derive(Debug)]
pub enum EndpointReply<T> {
    Success(Result<T, String>),
    Failure(String),
}

/// The result owed for a token-endpoint reply: the access token out of a
/// parsed body; a `Serialization` error carrying the parser's message for a
/// malformed body; a `TokenExchange` error carrying the body text verbatim
/// for a non-success status.
pub open spec fn token_reply_outcome(reply: EndpointReply<TokenResponse>) -> Result<
    Seq<char>,
    OAuthErrorView,
> {
    match reply {
        EndpointReply::Success(Ok(t)) => Ok(t.access_token@),
        EndpointReply::Success(Err(msg)) => Err(OAuthErrorView::Serialization(msg@)),
        EndpointReply::Failure(body) => Err(
            OAuthErrorView::TokenExchange("Failed to exchange code for token: "@ + body@),
        ),
    }
}

/// The result owed for a profile-endpoint reply: the parsed profile; a
/// `Serialization` error for a malformed body; a `Network` error carrying the
/// body text for a non-success status.
pub open spec fn profile_reply_outcome(reply: EndpointReply<IntercomUser>) -> Result<
    IntercomUser,
    OAuthErrorView,
> {
    match reply {
        EndpointReply::Success(Ok(user)) => Ok(user),
        EndpointReply::Success(Err(msg)) => Err(OAuthErrorView::Serialization(msg@)),
        EndpointReply::Failure(body) => Err(
            OAuthErrorView::Network("Failed to get user info: "@ + body@),
        ),
    }
}

/// View of a token-exchange result.
pub open spec fn token_result_view(r: Result<String, OAuthError>) -> Result<
    Seq<char>,
    OAuthErrorView,
> {
    match r {
        Ok(token) => Ok(token@),
        Err(e) => Err(e@),
    }
}

/// View of a profile-fetch result.
pub open spec fn profile_result_view(r: Result<IntercomUser, OAuthError>) -> Result<
    IntercomUser,
    OAuthErrorView,
> {
    match r {
        Ok(user) => Ok(user),
        Err(e) => Err(e@),
    }
}

/// Turns the token endpoint's reply into the flow's access token, or the
/// error owed for it. Only the access token of a parsed reply is propagated
/// further.
pub fn token_from_reply(reply: EndpointReply<TokenResponse>) -> (r: Result<String, OAuthError>)
    ensures
        token_result_view(r) == token_reply_outcome(reply),
{
    match reply {
        EndpointReply::Success(Ok(t)) => Ok(t.access_token),
        EndpointReply::Success(Err(msg)) => Err(OAuthError::Serialization(msg)),
        EndpointReply::Failure(body) => {
            let message = String::from_str("Failed to exchange code for token: ").concat(
                body.as_str(),
            );
            Err(OAuthError::TokenExchange(message))
        },
    }
}

/// Turns the profile endpoint's reply into the authenticated user's profile,
/// or the error owed for it.
pub fn user_from_reply(reply: EndpointReply<IntercomUser>) -> (r: Result<IntercomUser, OAuthError>)
    ensures
        profile_result_view(r) == profile_reply_outcome(reply),
{
    match reply {
        EndpointReply::Success(Ok(user)) => Ok(user),
        EndpointReply::Success(Err(msg)) => Err(OAuthError::Serialization(msg)),
        EndpointReply::Failure(body) => {
            let message = String::from_str("Failed to get user info: ").concat(body.as_str());
            Err(OAuthError::Network(message))
        },
    }
}

} // verus!
