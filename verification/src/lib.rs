//! A single-upstream, TLS-terminating HTTP reverse proxy core.
//!
//! The library holds the request-forwarding pipeline of the proxy: the
//! basic-authentication guard, the rewrite of each inbound request onto the
//! configured upstream target, and the substitution of a fixed fallback
//! response when upstream dispatch fails.  The serving layer around it
//! (TLS listener, HTTP plumbing) feeds it plain values and acts on the
//! decisions it returns.

mod auth;
mod config;
mod handler;
mod request;

pub use auth::authorized;
pub use auth::base64_of;
pub use auth::build_expected_authorization;
pub use auth::expected_basic_header;
pub use auth::find_header;
pub use auth::header_lookup;
pub use config::parse_user_passwd;
pub use config::valid_authority;
pub use config::ConfigError;
pub use config::ProxyConfig;
pub use config::UpstreamTarget;
pub use handler::challenge_response;
pub use handler::complete;
pub use handler::fallback_response;
pub use handler::handle_post;
pub use handler::handle_request;
pub use handler::is_challenge;
pub use handler::is_fallback;
pub use handler::lemma_handle_deterministic;
pub use handler::same_action;
pub use handler::DispatchError;
pub use handler::ProxyResponse;
pub use handler::RequestAction;
pub use handler::SyntheticResponse;
pub use handler::UpstreamResponse;
pub use request::effective_path_and_query;
pub use request::effective_scheme;
pub use request::rewrite_request;
pub use request::HttpVersion;
pub use request::InboundRequest;
pub use request::OutboundRequest;
