use vstd::prelude::*;
use crate::config::{ProxyConfig, ProxyConfigView};
use crate::error::ProxyError;

verus! {

/// The kind of traffic a URI is built for.
#[derive(PartialEq, Eq, Structural, Clone, Copy, Debug)]
pub enum Protocol {
    Http,
    WebSocket,
}

/// What `http::uri::Authority` parsing accepts.
pub uninterp spec fn authority_parses(s: Seq<char>) -> bool;

/// Relies on `<http::uri::Authority as FromStr>::from_str`: it accepts a
/// string exactly when the string is a URI authority, and never an empty one.
#[verifier::external_body]
fn parses_as_authority(s: &str) -> (r: bool)
    ensures
        r == authority_parses(s@),
        s@.len() == 0 ==> !r,
{
    s.parse::<http::uri::Authority>().is_ok()
}

/// The scheme chosen for `p` under `c`.
pub open spec fn scheme_of(c: ProxyConfigView, p: Protocol) -> Seq<char> {
    match p {
        Protocol::Http => if c.web_secure { seq!['h', 't', 't', 'p', 's'] } else { seq!['h', 't', 't', 'p'] },
        Protocol::WebSocket => if c.ws_secure { seq!['w', 's', 's'] } else { seq!['w', 's'] },
    }
}

/// The separator between a scheme and an authority.
pub open spec fn scheme_sep() -> Seq<char> {
    seq![':', '/', '/']
}

/// `t` holds `://` at index `i`.
pub open spec fn sep_at(t: Seq<char>, i: int) -> bool {
    0 <= i && i + 3 <= t.len() && t.subrange(i, i + 3) == scheme_sep()
}

/// `i` is the first index of `t` that holds `://`.
pub open spec fn first_sep(t: Seq<char>, i: int) -> bool {
    sep_at(t, i) && forall|j: int| 0 <= j < i ==> !sep_at(t, j)
}

/// The authority named by a target: what follows its first `://`, if it
/// holds one, else the whole target.
pub open spec fn authority_of(t: Seq<char>) -> Seq<char> {
    if exists|i: int| first_sep(t, i) {
        let i = choose|i: int| first_sep(t, i);
        t.subrange(i + 3, t.len() as int)
    } else {
        t
    }
}

/// The upstream URI without any path: `scheme://authority`.
pub open spec fn base_uri(c: ProxyConfigView, p: Protocol) -> Seq<char> {
    scheme_of(c, p) + scheme_sep() + authority_of(c.target)
}

/// The upstream URI for an inbound path and query `pq`.
pub open spec fn upstream_uri(c: ProxyConfigView, pq: Seq<char>, p: Protocol) -> Seq<char> {
    if c.support_nesting {
        base_uri(c, p) + pq
    } else {
        base_uri(c, p)
    }
}

/// Without nesting, the inbound path and query never reach the upstream URI:
/// any two inbound paths give the same URI, `scheme://authority`.
pub proof fn lemma_without_nesting_path_is_dropped(
    c: ProxyConfigView,
    pq1: Seq<char>,
    pq2: Seq<char>,
    p: Protocol,
)
    requires
        !c.support_nesting,
    ensures
        upstream_uri(c, pq1, p) == base_uri(c, p),
        upstream_uri(c, pq1, p) == upstream_uri(c, pq2, p),
{
}

/// With nesting, the upstream URI is `scheme://authority` followed by the
/// inbound path and query, verbatim.
pub proof fn lemma_with_nesting_path_is_appended(c: ProxyConfigView, pq: Seq<char>, p: Protocol)
    requires
        c.support_nesting,
    ensures
        upstream_uri(c, pq, p) == base_uri(c, p) + pq,
        upstream_uri(c, pq, p).subrange(
            base_uri(c, p).len() as int,
            upstream_uri(c, pq, p).len() as int,
        ) == pq,
{
    assert((base_uri(c, p) + pq).subrange(base_uri(c, p).len() as int, (base_uri(c, p) + pq).len() as int) =~= pq);
}

/// The scheme depends on the protocol and the two secure flags alone: `http`
/// or `https` for HTTP after `web_secure`, `ws` or `wss` for WebSocket after
/// `ws_secure`; every upstream URI starts with it and `://`.
pub proof fn lemma_scheme_follows_flags(
    c1: ProxyConfigView,
    c2: ProxyConfigView,
    pq: Seq<char>,
    p: Protocol,
)
    requires
        c1.web_secure == c2.web_secure,
        c1.ws_secure == c2.ws_secure,
    ensures
        scheme_of(c1, p) == scheme_of(c2, p),
        scheme_of(c1, Protocol::Http) == (if c1.web_secure { seq!['h', 't', 't', 'p', 's'] } else { seq!['h', 't', 't', 'p'] }),
        scheme_of(c1, Protocol::WebSocket) == (if c1.ws_secure { seq!['w', 's', 's'] } else { seq!['w', 's'] }),
        upstream_uri(c1, pq, p).subrange(0, scheme_of(c1, p).len() + 3int) == scheme_of(c1, p) + scheme_sep(),
{
    let pre = scheme_of(c1, p) + scheme_sep();
    let rest = if c1.support_nesting { authority_of(c1.target) + pq } else { authority_of(c1.target) };
    assert(upstream_uri(c1, pq, p) =~= pre + rest);
    assert((pre + rest).subrange(0, pre.len() as int) =~= pre);
}

proof fn lemma_first_sep_unique(t: Seq<char>, i: int, k: int)
    requires
        first_sep(t, i),
        first_sep(t, k),
    ensures
        i == k,
{
}

/// Index at which the authority of `t` starts.
fn authority_start(t: &str) -> (r: usize)
    ensures
        r <= t@.len(),
        t@.subrange(r as int, t@.len() as int) == authority_of(t@),
{
    let n = t.unicode_len();
    let mut i: usize = 0;
    while n >= 3 && i <= n - 3
        invariant
            n == t@.len(),
            i <= n,
            forall|j: int| 0 <= j < i ==> !sep_at(t@, j),
        decreases n - i,
    {
        if t.get_char(i) == ':' && t.get_char(i + 1) == '/' && t.get_char(i + 2) == '/' {
            proof {
                assert(t@.subrange(i as int, i + 3) =~= scheme_sep());
                assert(first_sep(t@, i as int));
                let k = choose|k: int| first_sep(t@, k);
                lemma_first_sep_unique(t@, i as int, k);
            }
            return i + 3;
        }
        proof {
            if t@.subrange(i as int, i + 3) == scheme_sep() {
                assert(t@.subrange(i as int, i + 3)[0] == ':');
                assert(t@.subrange(i as int, i + 3)[1] == '/');
                assert(t@.subrange(i as int, i + 3)[2] == '/');
            }
        }
        i = i + 1;
    }
    proof {
        assert forall|j: int| !first_sep(t@, j) by {
            if first_sep(t@, j) {
                assert(j < i);
            }
        }
        assert(t@.subrange(0, t@.len() as int) =~= t@);
    }
    0
}

/// Writes the URI for `path_and_query` once the target is known to be valid
/// or not: `target_is_authority` is whether the target's authority parses.
pub fn build_request_uri(
    config: &ProxyConfig,
    target_is_authority: bool,
    path_and_query: &str,
    protocol: Protocol,
) -> (r: Result<String, ProxyError>)
    ensures
        r.is_ok() == target_is_authority,
        r matches Ok(u) ==> u@ == upstream_uri(config@, path_and_query@, protocol),
        r matches Err(e) ==> e == ProxyError::InvalidTarget,
{
    if !target_is_authority {
        return Err(ProxyError::InvalidTarget);
    }
    let target = config.target();
    let start = authority_start(target);
    let authority = target.substring_char(start, target.unicode_len());
    let scheme = match protocol {
        Protocol::Http => if config.is_web_secure() { "https" } else { "http" },
        Protocol::WebSocket => if config.is_ws_secure() { "wss" } else { "ws" },
    };
    proof {
        reveal_strlit("https");
        reveal_strlit("http");
        reveal_strlit("wss");
        reveal_strlit("ws");
        reveal_strlit("://");
    }
    let mut u = String::from_str(scheme);
    u.append("://");
    u.append(authority);
    if config.supports_nesting() {
        u.append(path_and_query);
    }
    proof {
        assert(scheme@ =~= scheme_of(config@, protocol));
        assert("://"@ =~= scheme_sep());
    }
    Ok(u)
}

impl ProxyConfig {
    /// The upstream URI for an inbound request with `path_and_query`, or
    /// `InvalidTarget` when the target's authority does not parse.
    pub fn get_request_uri(&self, path_and_query: &str, protocol: Protocol) -> (r: Result<
        String,
        ProxyError,
    >)
        ensures
            r.is_ok() == authority_parses(authority_of(self@.target)),
            r matches Ok(u) ==> u@ == upstream_uri(self@, path_and_query@, protocol),
            r matches Err(e) ==> e == ProxyError::InvalidTarget,
    {
        let target = self.target();
        let start = authority_start(target);
        let authority = target.substring_char(start, target.unicode_len());
        let valid = parses_as_authority(authority);
        build_request_uri(self, valid, path_and_query, protocol)
    }
}

} // verus!
