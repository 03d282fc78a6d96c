//! Composition of the provider's authorization endpoint URL.

use vstd::prelude::*;
use crate::models::OAuthConfig;

verus! {

/// The authorization URL for `client_id` and the state token `state`:
/// the provider's authorization endpoint with both attached as query
/// parameters.
pub open spec fn authorization_url(client_id: Seq<char>, state: Seq<char>) -> Seq<char> {
    "https://app.intercom.com/oauth?client_id="@ + client_id + "&state="@ + state
}

/// Builds the URL the browser is sent to: the provider's authorization
/// endpoint carrying the flow's client identifier and state token.
pub fn build_authorization_url(config: &OAuthConfig, state: &str) -> (r: String)
    ensures
        r@ == authorization_url(config.client_id@, state@),
{
    let mut url = String::from_str("https://app.intercom.com/oauth?client_id=");
    url.append(config.client_id.as_str());
    url.append("&state=");
    url.append(state);
    proof {
        assert(url@ =~= authorization_url(config.client_id@, state@));
    }
    url
}

} // verus!
