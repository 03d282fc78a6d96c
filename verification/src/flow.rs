//! The flow orchestrator as a state machine.
//!
//! One flow is a single best-effort attempt that either fully succeeds or
//! fails as a whole. The machine decides; the caller performs each returned
//! action (launching the browser, awaiting the one redirect, the two outbound
//! requests) and hands the resulting event back. Within one flow the steps
//! run strictly in order: generate the state token, build the authorization
//! URL, launch the browser and await the single callback outcome, exchange
//! the code, fetch the profile, return the composite result. Any failure
//! after the launch aborts the whole attempt; nothing is retried and no
//! partial result is ever produced.

use vstd::prelude::*;
use crate::errors::OAuthError;
use crate::exchange::{
    token_from_reply,
    token_reply_outcome,
    user_from_reply,
    profile_reply_outcome,
    EndpointReply,
};
use crate::models::{AuthResult, IntercomUser, OAuthConfig, TokenResponse};
use crate::token::{generate_random_state, is_url_safe};
use crate::urls::{authorization_url, build_authorization_url};

verus! {

/// Where one flow stands.
#[derive(Debug)]
pub enum FlowState {
    /// Nothing has happened yet.
    Idle,
    /// The browser was sent off; the callback server owes one outcome for the
    /// state token generated for this flow.
    AwaitingCallback { state_token: String },
    /// The redirect delivered a code; the token endpoint owes a reply.
    ExchangingCode,
    /// The exchange delivered an access token; the profile endpoint owes a
    /// reply.
    FetchingProfile { access_token: String },
    /// The attempt ended, in success or failure.
    Finished,
}

/// What the caller reports back to the machine.
#[derive(Debug)]
pub enum FlowEvent {
    /// The caller asks the flow to begin.
    Begin,
    /// The single callback outcome, as the callback server validated it; an
    /// internal handoff failure arrives as its `Server` error.
    CallbackReceived(Result<String, OAuthError>),
    /// The token endpoint's reply, or the transport's error.
    TokenReply(Result<EndpointReply<TokenResponse>, OAuthError>),
    /// The profile endpoint's reply, or the transport's error.
    ProfileReply(Result<EndpointReply<IntercomUser>, OAuthError>),
}

/// What the caller must do next.
#[derive(Debug)]
pub enum FlowAction {
    /// Launch the browser at `url` (best effort: a failed launch does not
    /// abort the flow) and await the one redirect, validating it against
    /// `state_token`.
    OpenBrowserAndListen { url: String, state_token: String },
    /// POST `code` with the flow's credentials to the token endpoint.
    ExchangeCode { code: String },
    /// GET the profile endpoint with `access_token`.
    FetchProfile { access_token: String },
    /// The flow is over; hand this to the caller.
    Finish(Result<AuthResult, OAuthError>),
}

/// Which events a state can take: each suspension point answers exactly once.
pub open spec fn event_fits(state: FlowState, event: FlowEvent) -> bool {
    match (state, event) {
        (FlowState::Idle, FlowEvent::Begin) => true,
        (FlowState::AwaitingCallback { .. }, FlowEvent::CallbackReceived(_)) => true,
        (FlowState::ExchangingCode, FlowEvent::TokenReply(_)) => true,
        (FlowState::FetchingProfile { .. }, FlowEvent::ProfileReply(_)) => true,
        _ => false,
    }
}

/// Advances one flow by one step.
///
/// The contract fixes the whole transition relation: the fresh state token is
/// embedded in the authorization URL and remembered for validation; a
/// non-code callback outcome aborts with exactly that error; the exchange
/// propagates only the access token, which is both handed to the profile
/// fetch and returned in the final result; every error ends the flow with
/// that error and no partial result.
pub fn flow_step(config: &OAuthConfig, state: FlowState, event: FlowEvent) -> (r: (
    FlowState,
    FlowAction,
))
    requires
        event_fits(state, event),
    ensures
        match (state, event) {
            (FlowState::Idle, FlowEvent::Begin) => {
                &&& r.0 matches FlowState::AwaitingCallback { state_token }
                &&& r.1 matches FlowAction::OpenBrowserAndListen { url, state_token: listed }
                &&& listed == state_token
                &&& url@ == authorization_url(config.client_id@, state_token@)
                &&& state_token@.len() == 43
                &&& is_url_safe(state_token@)
            },
            (FlowState::AwaitingCallback { .. }, FlowEvent::CallbackReceived(outcome)) => {
                match outcome {
                    Ok(code) => r.0 is ExchangingCode && r.1 == FlowAction::ExchangeCode { code },
                    Err(e) => r.0 is Finished && r.1 == FlowAction::Finish(
                        Result::<AuthResult, OAuthError>::Err(e),
                    ),
                }
            },
            (FlowState::ExchangingCode, FlowEvent::TokenReply(reply)) => {
                match reply {
                    Ok(rep) => {
                        match token_reply_outcome(rep) {
                            Ok(token) => {
                                &&& r.0 matches FlowState::FetchingProfile { access_token }
                                &&& access_token@ == token
                                &&& r.1 matches FlowAction::FetchProfile { access_token: handed }
                                &&& handed@ == token
                            },
                            Err(e) => {
                                &&& r.0 is Finished
                                &&& r.1 matches FlowAction::Finish(out)
                                &&& out matches Err(err)
                                &&& err@ == e
                            },
                        }
                    },
                    Err(e) => r.0 is Finished && r.1 == FlowAction::Finish(
                        Result::<AuthResult, OAuthError>::Err(e),
                    ),
                }
            },
            (FlowState::FetchingProfile { access_token }, FlowEvent::ProfileReply(reply)) => {
                match reply {
                    Ok(rep) => {
                        match profile_reply_outcome(rep) {
                            Ok(user) => {
                                &&& r.0 is Finished
                                &&& r.1 matches FlowAction::Finish(out)
                                &&& out matches Ok(auth)
                                &&& auth.access_token == access_token
                                &&& auth.user == user
                            },
                            Err(e) => {
                                &&& r.0 is Finished
                                &&& r.1 matches FlowAction::Finish(out)
                                &&& out matches Err(err)
                                &&& err@ == e
                            },
                        }
                    },
                    Err(e) => r.0 is Finished && r.1 == FlowAction::Finish(
                        Result::<AuthResult, OAuthError>::Err(e),
                    ),
                }
            },
            _ => false,
        },
{
    match (state, event) {
        (FlowState::Idle, FlowEvent::Begin) => {
            let state_token = generate_random_state();
            let url = build_authorization_url(config, state_token.as_str());
            let remembered = state_token.clone();
            (
                FlowState::AwaitingCallback { state_token: remembered },
                FlowAction::OpenBrowserAndListen { url, state_token },
            )
        },
        (FlowState::AwaitingCallback { .. }, FlowEvent::CallbackReceived(outcome)) => {
            match outcome {
                Ok(code) => (FlowState::ExchangingCode, FlowAction::ExchangeCode { code }),
                Err(e) => (FlowState::Finished, FlowAction::Finish(Err(e))),
            }
        },
        (FlowState::ExchangingCode, FlowEvent::TokenReply(reply)) => {
            match reply {
                Ok(rep) => {
                    match token_from_reply(rep) {
                        Ok(token) => {
                            let remembered = token.clone();
                            (
                                FlowState::FetchingProfile { access_token: remembered },
                                FlowAction::FetchProfile { access_token: token },
                            )
                        },
                        Err(e) => (FlowState::Finished, FlowAction::Finish(Err(e))),
                    }
                },
                Err(e) => (FlowState::Finished, FlowAction::Finish(Err(e))),
            }
        },
        (FlowState::FetchingProfile { access_token }, FlowEvent::ProfileReply(reply)) => {
            match reply {
                Ok(rep) => {
                    match user_from_reply(rep) {
                        Ok(user) => (
                            FlowState::Finished,
                            FlowAction::Finish(Ok(AuthResult { access_token, user })),
                        ),
                        Err(e) => (FlowState::Finished, FlowAction::Finish(Err(e))),
                    }
                },
                Err(e) => (FlowState::Finished, FlowAction::Finish(Err(e))),
            }
        },
        _ => (
            FlowState::Finished,
            FlowAction::Finish(Err(OAuthError::Server(String::from_str("unexpected event")))),
        ),
    }
}

} // verus!
