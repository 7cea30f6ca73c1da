//! The upstream target: a validated base URI, the host component every
//! outbound `Host` header carries, and the transport flag derived from the
//! base's scheme.

use crate::error::ProxyError;
use crate::strutil::is_prefix;
use crate::strutil::str_starts_with;
use vstd::prelude::*;
use vstd::string::StrSliceExecFns;
use vstd::string::StringExecFns;

verus! {

/// Whether a string parses as a URI under the `http` crate's grammar.
/// Parsing is a pure function of the characters, so its outcome has a
/// name here; nothing more is assumed of it.
pub uninterp spec fn uri_ok(s: Seq<char>) -> bool;

/// Relies on `<http::Uri as core::str::FromStr>::from_str`: it parses the
/// string's bytes and nothing else, so success depends on the characters
/// alone.
#[verifier::external_body]
fn uri_parses(s: &str) -> (r: bool)
    ensures
        r == uri_ok(s@),
{
    s.parse::<http::Uri>().is_ok()
}

pub open spec fn https_prefix() -> Seq<char> {
    "https://"@
}

pub open spec fn http_prefix() -> Seq<char> {
    "http://"@
}

/// The base names the encrypted-transport scheme.
pub open spec fn is_https(s: Seq<char>) -> bool {
    is_prefix(s, https_prefix())
}

/// The base names the plain-transport scheme.
pub open spec fn is_http(s: Seq<char>) -> bool {
    is_prefix(s, http_prefix())
}

/// Length of the scheme prefix of a base, `"https://"` counted before
/// `"http://"`.
pub open spec fn scheme_len(s: Seq<char>) -> int {
    if is_https(s) {
        8
    } else {
        7
    }
}

/// The first position at or after `from` holding `'/'`, or the end.
pub open spec fn host_end(s: Seq<char>, from: int) -> int
    decreases s.len() - from,
{
    if from < 0 || from >= s.len() {
        s.len() as int
    } else if s[from] == '/' {
        from
    } else {
        host_end(s, from + 1)
    }
}

/// The host component of a base URI: everything between the scheme prefix
/// and the first `'/'` after it (or the end), so a configured port stays
/// part of it.
pub open spec fn authority_of(s: Seq<char>) -> Seq<char> {
    s.subrange(scheme_len(s), host_end(s, scheme_len(s)))
}

/// A valid upstream base: plain or encrypted HTTP scheme, a non-empty
/// host, and a string the URI grammar accepts.
pub open spec fn valid_base(s: Seq<char>) -> bool {
    &&& is_https(s) || is_http(s)
    &&& authority_of(s).len() > 0
    &&& uri_ok(s)
}

proof fn lemma_host_end_exact(s: Seq<char>, from: int, k: int)
    requires
        0 <= from <= k <= s.len(),
        forall|j: int| from <= j < k ==> s[j] != '/',
        k == s.len() || s[k] == '/',
    ensures
        host_end(s, from) == k,
    decreases k - from,
{
    if from < k {
        lemma_host_end_exact(s, from + 1, k);
    }
}

/// The single configured upstream origin. Built once at startup, shared
/// read-only by every request handler.
#[derive(Clone, Debug)]
pub struct UpstreamTarget {
    /// The configured base URI string.
    pub base: String,
    /// The base's host component (with any port), for the outbound `Host`
    /// header.
    pub host: String,
    /// Whether the base's scheme selects the encrypted transport.
    pub tls: bool,
}

impl UpstreamTarget {
    /// The derived fields agree with the base, and the base is valid.
    pub open spec fn wf(&self) -> bool {
        &&& valid_base(self.base@)
        &&& self.host@ == authority_of(self.base@)
        &&& self.tls == is_https(self.base@)
    }

    /// Validates a configured base URI and derives its host component and
    /// transport flag. Startup must not proceed on `Err`.
    pub fn new(base: String) -> (r: Result<UpstreamTarget, ProxyError>)
        ensures
            r is Ok <==> valid_base(base@),
            r matches Ok(t) ==> t.wf() && t.base@ == base@,
            r is Err ==> r == Err::<UpstreamTarget, ProxyError>(ProxyError::InvalidUpstream),
    {
        let https = str_starts_with(base.as_str(), "https://");
        let plain = str_starts_with(base.as_str(), "http://");
        if !https && !plain {
            return Err(ProxyError::InvalidUpstream);
        }
        proof {
            reveal_strlit("https://");
            reveal_strlit("http://");
        }
        let plen: usize = if https {
            8
        } else {
            7
        };
        let n = base.as_str().unicode_len();
        let mut i: usize = plen;
        while i < n && base.as_str().get_char(i) != '/'
            invariant
                n == base@.len(),
                plen <= i <= n,
                plen as int == scheme_len(base@),
                forall|j: int| plen <= j < i ==> base@[j] != '/',
            decreases n - i,
        {
            i += 1;
        }
        proof {
            lemma_host_end_exact(base@, plen as int, i as int);
        }
        let host_str = base.as_str().substring_char(plen, i);
        if host_str.is_empty() {
            return Err(ProxyError::InvalidUpstream);
        }
        if !uri_parses(base.as_str()) {
            return Err(ProxyError::InvalidUpstream);
        }
        let host = String::from_str(host_str);
        Ok(UpstreamTarget { base, host, tls: https })
    }

    /// Rewrites an inbound request's path-and-query against this target:
    /// the target URI is the base concatenated, unnormalized, with the
    /// path-and-query, and is accepted exactly when the URI grammar
    /// accepts the concatenation.
    pub fn target_uri(&self, path_and_query: &str) -> (r: Result<String, ProxyError>)
        requires
            self.wf(),
        ensures
            r is Ok <==> uri_ok(self.base@ + path_and_query@),
            r matches Ok(u) ==> u@ == self.base@ + path_and_query@,
            r is Err ==> r == Err::<String, ProxyError>(ProxyError::MalformedTarget),
    {
        let joined = self.base.clone().concat(path_and_query);
        if uri_parses(joined.as_str()) {
            Ok(joined)
        } else {
            Err(ProxyError::MalformedTarget)
        }
    }
}

} // verus!
