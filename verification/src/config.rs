use vstd::prelude::*;

use crate::auth::build_expected_authorization;
use crate::auth::expected_basic_header;

verus! {

/// A configuration input the proxy refuses to start with.
#[derive(Clone, Copy, Debug, PartialEq, Eq, Structural)]
pub enum ConfigError {
    /// The credential flag holds no `:` separator.
    MalformedCredentials,
    /// The upstream target's authority cannot form a URI component.
    InvalidAuthority,
}

/// Index of the first `:` in `s`, or `-1` when `s` holds none.
pub open spec fn first_colon(s: Seq<char>) -> int
    decreases s.len(),
{
    if s.len() == 0 {
        -1
    } else if s[0] == ':' {
        0
    } else if first_colon(s.drop_first()) == -1 {
        -1
    } else {
        first_colon(s.drop_first()) + 1
    }
}

proof fn lemma_first_colon_at(s: Seq<char>, i: int)
    requires
        0 <= i < s.len(),
        s[i] == ':',
        forall|j: int| 0 <= j < i ==> s[j] != ':',
    ensures
        first_colon(s) == i,
    decreases i,
{
    if i > 0 {
        lemma_first_colon_at(s.drop_first(), i - 1);
    }
}

proof fn lemma_first_colon_none(s: Seq<char>)
    requires
        forall|j: int| 0 <= j < s.len() ==> s[j] != ':',
    ensures
        first_colon(s) == -1,
    decreases s.len(),
{
    if s.len() > 0 {
        lemma_first_colon_none(s.drop_first());
    }
}

/// Splits a `user:password` credential flag at its first colon.
///
/// The part before the first colon is the username, everything after it the
/// password (which may itself hold colons).  An input without a colon is a
/// fatal configuration error.
pub fn parse_user_passwd(s: &str) -> (r: Result<(String, String), ConfigError>)
    ensures
        r is Ok <==> first_colon(s@) >= 0,
        r matches Ok(c) ==> {
            &&& c.0@ == s@.subrange(0, first_colon(s@))
            &&& c.1@ == s@.subrange(first_colon(s@) + 1, s@.len() as int)
        },
        r matches Err(e) ==> e == ConfigError::MalformedCredentials,
{
    let n = s.unicode_len();
    let mut i: usize = 0;
    while i < n
        invariant
            n == s@.len(),
            i <= n,
            forall|j: int| 0 <= j < i ==> s@[j] != ':',
        decreases n - i,
    {
        if s.get_char(i) == ':' {
            proof {
                lemma_first_colon_at(s@, i as int);
            }
            let user = s.substring_char(0, i).to_owned();
            let passwd = s.substring_char(i + 1, n).to_owned();
            return Ok((user, passwd));
        }
        i += 1;
    }
    proof {
        lemma_first_colon_none(s@);
    }
    Err(ConfigError::MalformedCredentials)
}

/// A character that may stand inside the authority component of a URI
/// without ending it or bleeding into a neighbouring component.
pub open spec fn authority_char(c: char) -> bool {
    c != '/' && c != '?' && c != '#' && c != '@' && c != ' '
}

/// Whether `s` can stand as the authority (host[:port]) of an outbound URI.
pub open spec fn valid_authority(s: Seq<char>) -> bool {
    &&& s.len() > 0
    &&& forall|i: int| 0 <= i < s.len() ==> authority_char(s[i])
}

/// The fixed upstream every request is forwarded to.
pub struct UpstreamTarget {
    /// URI scheme, `None` when the target was configured as a bare
    /// authority; the rewrite then defaults to `http`.
    pub scheme: Option<String>,
    /// host[:port] of the upstream.
    pub authority: String,
}

impl UpstreamTarget {
    /// The authority can stand in every outbound URI the rewrite builds.
    pub open spec fn wf(self) -> bool {
        valid_authority(self.authority@)
    }

    /// Validates the configured target.  A target whose authority cannot
    /// form a URI component is a fatal startup error, so that it is never
    /// encountered per-request.
    pub fn new(scheme: Option<String>, authority: String) -> (r: Result<UpstreamTarget, ConfigError>)
        ensures
            r is Ok <==> valid_authority(authority@),
            r matches Ok(t) ==> t == (UpstreamTarget { scheme, authority }),
            r matches Err(e) ==> e == ConfigError::InvalidAuthority,
    {
        let n = authority.as_str().unicode_len();
        if n == 0 {
            return Err(ConfigError::InvalidAuthority);
        }
        let mut i: usize = 0;
        while i < n
            invariant
                n == authority@.len(),
                i <= n,
                forall|j: int| 0 <= j < i ==> authority_char(authority@[j]),
            decreases n - i,
        {
            let c = authority.as_str().get_char(i);
            if c == '/' || c == '?' || c == '#' || c == '@' || c == ' ' {
                return Err(ConfigError::InvalidAuthority);
            }
            i += 1;
        }
        Ok(UpstreamTarget { scheme, authority })
    }
}

/// The immutable per-process configuration of the forwarding pipeline:
/// the credential pair the auth guard accepts and the upstream target every
/// request is rewritten onto.  Built once at startup, read-only after.
pub struct ProxyConfig {
    pub user: String,
    pub pass: String,
    /// The one `Authorization` header value the auth guard accepts, precomputed
    /// from the credential pair.
    pub expected_authorization: String,
    pub target: UpstreamTarget,
}

impl ProxyConfig {
    pub open spec fn wf(self) -> bool {
        &&& self.expected_authorization@ == expected_basic_header(self.user@, self.pass@)
        &&& self.target.wf()
    }

    /// Assembles the configuration; the auth guard's expected header value is
    /// computed here, once, so that no request-time work leaves the
    /// verified pipeline.  The length bound on the credentials is the
    /// machine limit of the header encoder.
    pub fn new(user: String, pass: String, target: UpstreamTarget) -> (c: ProxyConfig)
        requires
            target.wf(),
            user@.len() + pass@.len() + 1 <= usize::MAX as int / 8,
        ensures
            c.wf(),
            c.user == user,
            c.pass == pass,
            c.target == target,
    {
        let expected_authorization = build_expected_authorization(&user, &pass);
        ProxyConfig { user, pass, expected_authorization, target }
    }
}

} // verus!
