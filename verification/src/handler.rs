use vstd::prelude::*;

use crate::auth::authorized;
use crate::auth::find_header;
use crate::config::ProxyConfig;
use crate::request::effective_path_and_query;
use crate::request::effective_scheme;
use crate::request::HttpVersion;
use crate::request::InboundRequest;
use crate::request::OutboundRequest;
use crate::request::rewrite_request;

verus! {

/// A response the proxy synthesizes itself; the upstream was not asked.
pub struct SyntheticResponse {
    pub status: u16,
    /// Header (name, value) pairs, names in lower case.
    pub headers: Vec<(String, String)>,
    pub body: String,
}

/// Why an upstream dispatch failed.  Every cause collapses to the same
/// fallback response; the distinction is preserved for logs alone, never
/// surfaced to the client.
#[derive(Clone, Copy, Debug, PartialEq, Eq, Structural)]
pub enum DispatchError {
    Connect,
    Timeout,
    Protocol,
}

/// A response the upstream gave, to pass through unmodified: status,
/// headers and body byte for byte, the body by move.
pub struct UpstreamResponse<B> {
    pub status: u16,
    pub headers: Vec<(String, String)>,
    pub body: B,
}

/// What one completed request answers with: the upstream's response,
/// untouched, or a response the proxy synthesized itself.
pub enum ProxyResponse<B> {
    Upstream(UpstreamResponse<B>),
    Synthetic(SyntheticResponse),
}

/// What the pipeline decides for one inbound request: answer at once,
/// the upstream never contacted, or forward the rewritten request.
pub enum RequestAction<B> {
    Respond(SyntheticResponse),
    Forward(OutboundRequest<B>),
}

/// The basic-authentication challenge: status 401, a
/// `WWW-Authenticate: Basic` header, an empty body.
pub open spec fn is_challenge(r: SyntheticResponse) -> bool {
    &&& r.status == 401
    &&& r.headers@.len() == 1
    &&& r.headers@[0].0@ == "www-authenticate"@
    &&& r.headers@[0].1@ == "Basic"@
    &&& r.body@ == Seq::<char>::empty()
}

/// The fixed fallback substituted for any upstream dispatch failure;
/// clients never see the underlying cause.
pub open spec fn is_fallback(r: SyntheticResponse) -> bool {
    &&& r.status == 503
    &&& r.headers@.len() == 0
    &&& r.body@ == "503 Service Unavailable"@
}

/// The challenge answered to every request the auth guard refuses.
pub fn challenge_response() -> (r: SyntheticResponse)
    ensures
        is_challenge(r),
{
    let mut headers: Vec<(String, String)> = Vec::new();
    headers.push((String::from_str("www-authenticate"), String::from_str("Basic")));
    SyntheticResponse { status: 401, headers, body: String::new() }
}

/// The fallback answered whenever upstream dispatch fails.
pub fn fallback_response() -> (r: SyntheticResponse)
    ensures
        is_fallback(r),
{
    SyntheticResponse {
        status: 503,
        headers: Vec::new(),
        body: String::from_str("503 Service Unavailable"),
    }
}

/// Everything the pipeline promises of the action taken for one inbound
/// request: a request without the accepted `Authorization` value is
/// answered with the challenge and never forwarded; an authorized one is
/// forwarded, rewritten onto the configured target, its method, headers
/// and body untouched.
pub open spec fn handle_post<B>(
    req: InboundRequest<B>,
    cfg: ProxyConfig,
    a: RequestAction<B>,
) -> bool {
    if authorized(req.headers@, cfg.user@, cfg.pass@) {
        match a {
            RequestAction::Forward(out) => {
                &&& out.authority@ == cfg.target.authority@
                &&& out.scheme@ == effective_scheme(cfg.target)
                &&& out.path_and_query@ == effective_path_and_query(req.path_and_query)
                &&& out.version == HttpVersion::Http11
                &&& out.method == req.method
                &&& out.headers == req.headers
                &&& out.body == req.body
            },
            RequestAction::Respond(_) => false,
        }
    } else {
        match a {
            RequestAction::Respond(r) => is_challenge(r),
            RequestAction::Forward(_) => false,
        }
    }
}

/// Runs the auth guard and, only when it passes, the rewrite, for one inbound
/// request.  Strictly in this order: an unauthorized request is answered
/// before any forwarding work is done.
pub fn handle_request<B>(req: InboundRequest<B>, cfg: &ProxyConfig) -> (a: RequestAction<B>)
    requires
        cfg.wf(),
    ensures
        handle_post(req, *cfg, a),
{
    let name = String::from_str("authorization");
    let granted = match find_header(&req.headers, &name) {
        Some(v) => *v == cfg.expected_authorization,
        None => false,
    };
    if granted {
        RequestAction::Forward(rewrite_request(req, &cfg.target))
    } else {
        RequestAction::Respond(challenge_response())
    }
}

/// Substitutes the fixed fallback for any dispatch failure; a response
/// the upstream did give passes through untouched.
pub fn complete<B>(result: Result<UpstreamResponse<B>, DispatchError>) -> (r: ProxyResponse<B>)
    ensures
        result matches Ok(resp) ==> r == ProxyResponse::Upstream(resp),
        result is Err ==> (r matches ProxyResponse::Synthetic(s) && is_fallback(s)),
{
    match result {
        Ok(resp) => ProxyResponse::Upstream(resp),
        Err(_) => ProxyResponse::Synthetic(fallback_response()),
    }
}

/// The same action is agreed on both views of an action pair: the same
/// variant, with the same observable content.
pub open spec fn same_action<B>(a1: RequestAction<B>, a2: RequestAction<B>) -> bool {
    match (a1, a2) {
        (RequestAction::Forward(o1), RequestAction::Forward(o2)) => {
            &&& o1.method == o2.method
            &&& o1.scheme@ == o2.scheme@
            &&& o1.authority@ == o2.authority@
            &&& o1.path_and_query@ == o2.path_and_query@
            &&& o1.version == o2.version
            &&& o1.headers == o2.headers
            &&& o1.body == o2.body
        },
        (RequestAction::Respond(r1), RequestAction::Respond(r2)) => {
            &&& r1.status == r2.status
            &&& r1.headers@.len() == r2.headers@.len()
            &&& forall|i: int|
                0 <= i < r1.headers@.len() ==> r1.headers@[i].0@ == r2.headers@[i].0@
                    && r1.headers@[i].1@ == r2.headers@[i].1@
            &&& r1.body@ == r2.body@
        },
        _ => false,
    }
}

/// Handling is idempotent: two runs of the pipeline on the same request
/// under the same configuration take the same action.  The decision is a
/// function of the request and the configuration alone; no state leaks
/// from one request into the next.
pub proof fn lemma_handle_deterministic<B>(
    req: InboundRequest<B>,
    cfg: ProxyConfig,
    a1: RequestAction<B>,
    a2: RequestAction<B>,
)
    requires
        handle_post(req, cfg, a1),
        handle_post(req, cfg, a2),
    ensures
        same_action(a1, a2),
{
}

} // verus!
