//! Loopback authorization-code-grant engine.
//!
//! The flow launches the user's browser at the provider's authorization
//! endpoint, receives the redirect on a local loopback port, validates it
//! against a CSRF state token, exchanges the authorization code for an
//! access token, and fetches the authenticated user's profile.

pub mod callback;
pub mod errors;
pub mod exchange;
pub mod flow;
pub mod handoff;
pub mod models;
pub mod params;
pub mod token;
pub mod urls;
