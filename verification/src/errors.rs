//! Error taxonomy of the flow.

use vstd::prelude::*;

verus! {

/// Spec-level model of an [`OAuthError`]: the same variants over `Seq<char>`.
pub enum OAuthErrorView {
    Network(Seq<char>),
    InvalidState,
    AuthorizationFailed { error: Seq<char>, description: Seq<char> },
    TokenExchange(Seq<char>),
    Server(Seq<char>),
    Serialization(Seq<char>),
}

/// Everything that can go wrong in one flow attempt.
///
/// Every error aborts the whole attempt: no step is retried and no partial
/// result is ever produced.
#[derive(Debug, Clone)]
pub enum OAuthError {
    /// Transport failure, or a non-success status outside the token endpoint;
    /// carries diagnostic text.
    Network(String),
    /// The `state` echoed by the provider differs from the token generated for
    /// this flow: a possible CSRF attack.
    InvalidState,
    /// The provider reported a denial, or the redirect carried no code.
    AuthorizationFailed { error: String, description: String },
    /// Non-success status at the token endpoint; carries the response body.
    TokenExchange(String),
    /// Internal handoff failure: the receiving side was dropped before delivery.
    Server(String),
    /// Malformed JSON in a provider reply.
    Serialization(String),
}

impl View for OAuthError {
    type V = OAuthErrorView;

    open spec fn view(&self) -> OAuthErrorView {
        match self {
            OAuthError::Network(s) => OAuthErrorView::Network(s@),
            OAuthError::InvalidState => OAuthErrorView::InvalidState,
            OAuthError::AuthorizationFailed { error, description } => {
                OAuthErrorView::AuthorizationFailed { error: error@, description: description@ }
            },
            OAuthError::TokenExchange(s) => OAuthErrorView::TokenExchange(s@),
            OAuthError::Server(s) => OAuthErrorView::Server(s@),
            OAuthError::Serialization(s) => OAuthErrorView::Serialization(s@),
        }
    }
}

} // verus!
