use vstd::prelude::*;

use crate::config::UpstreamTarget;

verus! {

/// The protocol version a request travels over.
#[derive(Clone, Copy, Debug, PartialEq, Eq, Structural)]
pub enum HttpVersion {
    Http09,
    Http10,
    Http11,
    Http2,
    Http3,
}

/// One inbound request, as the HTTP layer hands it to the core: plain
/// values for everything the pipeline reads, the body left opaque and
/// owned exclusively by the handling of this one request.
pub struct InboundRequest<B> {
    pub method: String,
    /// Path and query of the request target, `None` when the target
    /// carries none.
    pub path_and_query: Option<String>,
    pub version: HttpVersion,
    /// Header (name, value) pairs, names in the lower-case form the HTTP
    /// layer normalizes them to.
    pub headers: Vec<(String, String)>,
    pub body: B,
}

/// The rewritten request to issue upstream.
pub struct OutboundRequest<B> {
    pub method: String,
    pub scheme: String,
    pub authority: String,
    pub path_and_query: String,
    pub version: HttpVersion,
    pub headers: Vec<(String, String)>,
    pub body: B,
}

/// The scheme the rewrite settles on: the target's own, or `http` when
/// the target was configured without one.
pub open spec fn effective_scheme(target: UpstreamTarget) -> Seq<char> {
    match target.scheme {
        Some(s) => s@,
        None => "http"@,
    }
}

/// The path and query the rewrite settles on: the inbound one, or `/`
/// when the inbound request target carries none.
pub open spec fn effective_path_and_query(path_and_query: Option<String>) -> Seq<char> {
    match path_and_query {
        Some(p) => p@,
        None => "/"@,
    }
}

/// Rewrites an inbound request onto the upstream target.
///
/// Authority and scheme are fully replaced by the target's values; only
/// path and query survive from the inbound request target.  The protocol
/// version is forced to HTTP/1.1 whatever version the request arrived
/// over, since upstream support for newer versions is not guaranteed.
/// Method, headers and body pass through untouched; the body is moved,
/// never copied, so it can be read exactly once downstream.
pub fn rewrite_request<B>(req: InboundRequest<B>, target: &UpstreamTarget) -> (out: OutboundRequest<B>)
    ensures
        out.authority@ == target.authority@,
        out.scheme@ == effective_scheme(*target),
        out.path_and_query@ == effective_path_and_query(req.path_and_query),
        out.version == HttpVersion::Http11,
        out.method == req.method,
        out.headers == req.headers,
        out.body == req.body,
{
    let scheme = match &target.scheme {
        Some(s) => s.clone(),
        None => String::from_str("http"),
    };
    let path_and_query = match req.path_and_query {
        Some(p) => p,
        None => String::from_str("/"),
    };
    OutboundRequest {
        method: req.method,
        scheme,
        authority: target.authority.clone(),
        path_and_query,
        version: HttpVersion::Http11,
        headers: req.headers,
        body: req.body,
    }
}

} // verus!
