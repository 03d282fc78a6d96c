use oauth_loopback::callback::handle_callback;
use oauth_loopback::errors::OAuthError;
use oauth_loopback::exchange::{token_from_reply, user_from_reply, EndpointReply};
use oauth_loopback::flow::{flow_step, FlowAction, FlowEvent, FlowState};
use oauth_loopback::handoff::HandoffSlot;
use oauth_loopback::models::{IntercomUser, OAuthConfig, TokenResponse};
use oauth_loopback::params::parse_query;
use oauth_loopback::token::generate_random_state;
use oauth_loopback::urls::build_authorization_url;

use base64::Engine;

fn config() -> OAuthConfig {
    OAuthConfig {
        client_id: "my-client".to_string(),
        client_secret: "my-secret".to_string(),
        redirect_port: 8080,
    }
}

fn parse_token_body(body: &str) -> Result<TokenResponse, String> {
    let value: serde_json::Value = serde_json::from_str(body).map_err(|e| e.to_string())?;
    let access_token = value
        .get("access_token")
        .and_then(|v| v.as_str())
        .ok_or_else(|| "missing field `access_token`".to_string())?
        .to_string();
    let token_type = value
        .get("token_type")
        .and_then(|v| v.as_str())
        .ok_or_else(|| "missing field `token_type`".to_string())?
        .to_string();
    Ok(TokenResponse {
        access_token,
        token_type,
        expires_in: value.get("expires_in").and_then(|v| v.as_i64()),
        scope: value.get("scope").and_then(|v| v.as_str()).map(|s| s.to_string()),
    })
}

fn parse_user_body(body: &str) -> Result<IntercomUser, String> {
    let value: serde_json::Value = serde_json::from_str(body).map_err(|e| e.to_string())?;
    let id = value
        .get("id")
        .and_then(|v| v.as_str())
        .ok_or_else(|| "missing field `id`".to_string())?
        .to_string();
    Ok(IntercomUser {
        id,
        name: value.get("name").and_then(|v| v.as_str()).map(|s| s.to_string()),
        email: value.get("email").and_then(|v| v.as_str()).map(|s| s.to_string()),
        app: None,
        avatar: None,
    })
}

#[test]
fn state_tokens_are_url_safe_and_distinct() {
    let mut seen: Vec<String> = Vec::new();
    for _ in 0..64 {
        let token = generate_random_state();
        assert_eq!(token.len(), 43);
        assert!(token
            .chars()
            .all(|c| c.is_ascii_alphanumeric() || c == '-' || c == '_'));
        let decoded = base64::engine::general_purpose::URL_SAFE_NO_PAD
            .decode(token.as_bytes())
            .expect("state token must decode as URL-safe base64");
        assert_eq!(decoded.len(), 32);
        assert!(!seen.contains(&token), "state tokens must not repeat");
        seen.push(token);
    }
}

#[test]
fn authorization_url_carries_client_id_and_state() {
    let url = build_authorization_url(&config(), "sometoken");
    assert_eq!(
        url,
        "https://app.intercom.com/oauth?client_id=my-client&state=sometoken"
    );
}

#[test]
fn callback_with_code_and_matching_state_yields_code() {
    let params = parse_query("code=abc123&state=xyz");
    let expected = "xyz".to_string();
    let outcome = handle_callback(&params, Some(&expected));
    match outcome {
        Ok(code) => assert_eq!(code, "abc123"),
        Err(e) => panic!("expected the code, got {:?}", e),
    }
}

#[test]
fn callback_with_provider_error_reports_it_decoded() {
    let params = parse_query("error=access_denied&error_description=User%20denied");
    let expected = "xyz".to_string();
    let outcome = handle_callback(&params, Some(&expected));
    match outcome {
        Err(OAuthError::AuthorizationFailed { error, description }) => {
            assert_eq!(error, "access_denied");
            assert_eq!(description, "User denied");
        }
        other => panic!("expected AuthorizationFailed, got {:?}", other),
    }
}

#[test]
fn callback_with_error_and_no_description_reports_unknown_error() {
    let params = parse_query("error=access_denied");
    let outcome = handle_callback(&params, None);
    match outcome {
        Err(OAuthError::AuthorizationFailed { error, description }) => {
            assert_eq!(error, "access_denied");
            assert_eq!(description, "Unknown error");
        }
        other => panic!("expected AuthorizationFailed, got {:?}", other),
    }
}

#[test]
fn callback_without_code_or_error_is_missing_code() {
    let params = parse_query("state=xyz");
    let expected = "xyz".to_string();
    let outcome = handle_callback(&params, Some(&expected));
    match outcome {
        Err(OAuthError::AuthorizationFailed { error, description }) => {
            assert_eq!(error, "missing_code");
            assert_eq!(description, "Authorization code not provided");
        }
        other => panic!("expected AuthorizationFailed, got {:?}", other),
    }
}

#[test]
fn callback_with_wrong_state_is_invalid_state() {
    let params = parse_query("code=abc123&state=wrong");
    let expected = "xyz".to_string();
    let outcome = handle_callback(&params, Some(&expected));
    assert!(matches!(outcome, Err(OAuthError::InvalidState)));
}

#[test]
fn callback_without_state_skips_the_check() {
    let params = parse_query("code=abc123");
    let expected = "xyz".to_string();
    let outcome = handle_callback(&params, Some(&expected));
    match outcome {
        Ok(code) => assert_eq!(code, "abc123"),
        Err(e) => panic!("expected the code, got {:?}", e),
    }
}

#[test]
fn later_occurrences_of_a_key_override_earlier_ones() {
    let params = parse_query("code=first&code=second");
    let outcome = handle_callback(&params, None);
    match outcome {
        Ok(code) => assert_eq!(code, "second"),
        Err(e) => panic!("expected the code, got {:?}", e),
    }
}

#[test]
fn query_decoding_handles_plus_escapes_and_missing_values() {
    let params = parse_query("a=1+2&b=%41%7a&empty&c");
    assert_eq!(params[0], ("a".to_string(), "1 2".to_string()));
    assert_eq!(params[1], ("b".to_string(), "Az".to_string()));
    assert_eq!(params[2], ("empty".to_string(), "".to_string()));
    assert_eq!(params[3], ("c".to_string(), "".to_string()));
    assert_eq!(params.len(), 4);
}

#[test]
fn invalid_percent_escapes_stay_literal() {
    let params = parse_query("k=%zz%4");
    assert_eq!(params[0], ("k".to_string(), "%zz%4".to_string()));
}

#[test]
fn token_endpoint_failure_carries_the_body() {
    let reply: EndpointReply<TokenResponse> = EndpointReply::Failure("invalid_grant".to_string());
    match token_from_reply(reply) {
        Err(OAuthError::TokenExchange(message)) => {
            assert!(message.contains("invalid_grant"));
            assert_eq!(message, "Failed to exchange code for token: invalid_grant");
        }
        other => panic!("expected TokenExchange, got {:?}", other),
    }
}

#[test]
fn token_endpoint_success_yields_the_access_token() {
    let parsed = parse_token_body(r#"{"access_token":"tok1","token_type":"bearer"}"#);
    let token = token_from_reply(EndpointReply::Success(parsed)).expect("exchange must succeed");
    assert_eq!(token, "tok1");
}

#[test]
fn malformed_token_body_is_a_serialization_error() {
    let parsed = parse_token_body("{not json");
    match token_from_reply(EndpointReply::Success(parsed)) {
        Err(OAuthError::Serialization(_)) => {}
        other => panic!("expected Serialization, got {:?}", other),
    }
}

#[test]
fn profile_endpoint_failure_is_a_network_error() {
    let reply: EndpointReply<IntercomUser> = EndpointReply::Failure("forbidden".to_string());
    match user_from_reply(reply) {
        Err(OAuthError::Network(message)) => {
            assert_eq!(message, "Failed to get user info: forbidden");
        }
        other => panic!("expected Network, got {:?}", other),
    }
}

#[test]
fn malformed_profile_body_is_a_serialization_error() {
    let parsed = parse_user_body(r#"{"email":"a@b.com"}"#);
    match user_from_reply(EndpointReply::Success(parsed)) {
        Err(OAuthError::Serialization(message)) => {
            assert!(message.contains("id"));
        }
        other => panic!("expected Serialization, got {:?}", other),
    }
}

#[test]
fn full_flow_returns_token_and_profile() {
    let config = config();
    let (state, action) = flow_step(&config, FlowState::Idle, FlowEvent::Begin);
    let state_token = match &action {
        FlowAction::OpenBrowserAndListen { url, state_token } => {
            assert_eq!(
                *url,
                format!(
                    "https://app.intercom.com/oauth?client_id=my-client&state={}",
                    state_token
                )
            );
            state_token.clone()
        }
        other => panic!("expected OpenBrowserAndListen, got {:?}", other),
    };

    let redirect_query = format!("code=abc&state={}", state_token);
    let params = parse_query(&redirect_query);
    let outcome = handle_callback(&params, Some(&state_token));
    let (state, action) = flow_step(&config, state, FlowEvent::CallbackReceived(outcome));
    match &action {
        FlowAction::ExchangeCode { code } => assert_eq!(code, "abc"),
        other => panic!("expected ExchangeCode, got {:?}", other),
    }

    let token_body = r#"{"access_token":"tok1","token_type":"bearer"}"#;
    let reply = EndpointReply::Success(parse_token_body(token_body));
    let (state, action) = flow_step(&config, state, FlowEvent::TokenReply(Ok(reply)));
    match &action {
        FlowAction::FetchProfile { access_token } => assert_eq!(access_token, "tok1"),
        other => panic!("expected FetchProfile, got {:?}", other),
    }

    let user_body = r#"{"id":"42","email":"a@b.com"}"#;
    let reply = EndpointReply::Success(parse_user_body(user_body));
    let (_, action) = flow_step(&config, state, FlowEvent::ProfileReply(Ok(reply)));
    match action {
        FlowAction::Finish(Ok(result)) => {
            assert_eq!(result.access_token, "tok1");
            assert_eq!(result.user.id, "42");
            assert_eq!(result.user.email, Some("a@b.com".to_string()));
        }
        other => panic!("expected the final result, got {:?}", other),
    }
}

#[test]
fn flow_aborts_on_provider_denial() {
    let config = config();
    let (state, _) = flow_step(&config, FlowState::Idle, FlowEvent::Begin);
    let params = parse_query("error=access_denied");
    let outcome = handle_callback(&params, None);
    let (state, action) = flow_step(&config, state, FlowEvent::CallbackReceived(outcome));
    assert!(matches!(state, FlowState::Finished));
    match action {
        FlowAction::Finish(Err(OAuthError::AuthorizationFailed { error, .. })) => {
            assert_eq!(error, "access_denied");
        }
        other => panic!("expected the provider's denial, got {:?}", other),
    }
}

#[test]
fn flow_aborts_on_handoff_failure() {
    let config = config();
    let (state, _) = flow_step(&config, FlowState::Idle, FlowEvent::Begin);
    let dropped = OAuthError::Server("Callback receiver dropped".to_string());
    let (state, action) = flow_step(&config, state, FlowEvent::CallbackReceived(Err(dropped)));
    assert!(matches!(state, FlowState::Finished));
    match action {
        FlowAction::Finish(Err(OAuthError::Server(message))) => {
            assert_eq!(message, "Callback receiver dropped");
        }
        other => panic!("expected the handoff failure, got {:?}", other),
    }
}

#[test]
fn handoff_delivers_at_most_once() {
    let mut slot = HandoffSlot::new();
    let first = slot.deliver(Ok("first".to_string()));
    let second = slot.deliver(Ok("second".to_string()));
    assert!(first);
    assert!(!second);
    match slot.take_outcome() {
        Some(Ok(code)) => assert_eq!(code, "first"),
        other => panic!("expected the first outcome, got {:?}", other),
    }
    assert!(slot.take_outcome().is_none());
}
