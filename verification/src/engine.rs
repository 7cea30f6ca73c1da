//! The per-request pipeline: preflight short-circuit, request rewriting
//! and the plan an I/O layer executes against the upstream.

use crate::error::ProxyError;
use crate::policy::preflight_header_seq;
use crate::policy::response_header_seq;
use crate::policy::CorsPolicy;
use crate::strutil::str_eq;
use crate::target::authority_of;
use crate::target::is_https;
use crate::target::uri_ok;
use crate::target::UpstreamTarget;
use vstd::prelude::*;
use vstd::string::StrSliceExecFns;
use vstd::string::StringExecFns;

verus! {

pub open spec fn preflight_method() -> Seq<char> {
    "OPTIONS"@
}

pub open spec fn host_name() -> Seq<char> {
    "Host"@
}

/// `name` spells `Host` in any letter case, the one request header the
/// proxy replaces.
pub open spec fn is_host_name(name: Seq<char>) -> bool {
    &&& name.len() == 4
    &&& (name[0] == 'h' || name[0] == 'H')
    &&& (name[1] == 'o' || name[1] == 'O')
    &&& (name[2] == 's' || name[2] == 'S')
    &&& (name[3] == 't' || name[3] == 'T')
}

/// The inbound headers that pass through to the upstream: all of them, in
/// order, except any `Host` header.
pub open spec fn keep_headers(hs: Seq<(Seq<char>, Seq<char>)>) -> Seq<(Seq<char>, Seq<char>)>
    decreases hs.len(),
{
    if hs.len() == 0 {
        Seq::empty()
    } else if is_host_name(hs[0].0) {
        keep_headers(hs.drop_first())
    } else {
        seq![hs[0]] + keep_headers(hs.drop_first())
    }
}

/// The outbound header list: the pass-through headers followed by a
/// `Host` header naming the upstream.
pub open spec fn forward_header_seq(
    hs: Seq<(Seq<char>, Seq<char>)>,
    host: Seq<char>,
) -> Seq<(Seq<char>, Seq<char>)> {
    keep_headers(hs).push((host_name(), host))
}

/// A request is a CORS preflight exactly when its method is `OPTIONS`
/// (case-sensitive).
pub fn is_preflight(method: &str) -> (r: bool)
    ensures
        r == (method@ == preflight_method()),
{
    str_eq(method, "OPTIONS")
}

fn is_host_header(name: &str) -> (r: bool)
    ensures
        r == is_host_name(name@),
{
    if name.unicode_len() != 4 {
        return false;
    }
    let c0 = name.get_char(0);
    let c1 = name.get_char(1);
    let c2 = name.get_char(2);
    let c3 = name.get_char(3);
    (c0 == 'h' || c0 == 'H') && (c1 == 'o' || c1 == 'O') && (c2 == 's' || c2 == 'S') && (c3 == 't'
        || c3 == 'T')
}

/// Builds the outbound header list of a forwarded request: every inbound
/// header except `Host` passes through unchanged and in order, then the
/// upstream host is set as the `Host` value.
pub fn forward_headers(headers: &Vec<(String, String)>, host: &String) -> (r: Vec<
    (String, String),
>)
    ensures
        r.deep_view() == forward_header_seq(headers.deep_view(), host@),
{
    let ghost hs = headers.deep_view();
    let mut out: Vec<(String, String)> = Vec::new();
    let mut i: usize = 0;
    proof {
        assert(out.deep_view() =~= Seq::<(Seq<char>, Seq<char>)>::empty());
        assert(hs.subrange(0, hs.len() as int) =~= hs);
    }
    while i < headers.len()
        invariant
            hs == headers.deep_view(),
            i <= headers.len(),
            keep_headers(hs) == out.deep_view() + keep_headers(
                hs.subrange(i as int, hs.len() as int),
            ),
        decreases headers.len() - i,
    {
        let ghost suffix = hs.subrange(i as int, hs.len() as int);
        let ghost prev = out.deep_view();
        proof {
            assert(suffix[0] == hs[i as int]);
            assert(suffix.drop_first() =~= hs.subrange(i as int + 1, hs.len() as int));
        }
        let pair = &headers[i];
        if !is_host_header(pair.0.as_str()) {
            out.push((pair.0.clone(), pair.1.clone()));
            proof {
                assert(hs[i as int] == (pair.0@, pair.1@));
                assert(out.deep_view() =~= prev + seq![hs[i as int]]);
                assert((prev + seq![hs[i as int]]) + keep_headers(suffix.drop_first()) =~= prev + (
                seq![hs[i as int]] + keep_headers(suffix.drop_first())));
            }
        }
        i += 1;
    }
    proof {
        assert(hs.subrange(hs.len() as int, hs.len() as int) =~= Seq::<
            (Seq<char>, Seq<char>),
        >::empty());
        assert(keep_headers(hs) =~= out.deep_view());
    }
    let ghost kept = out.deep_view();
    out.push((String::from_str("Host"), host.clone()));
    proof {
        assert(out.deep_view() =~= kept.push((host_name(), host@)));
    }
    out
}

proof fn lemma_keep_headers_membership(hs: Seq<(Seq<char>, Seq<char>)>)
    ensures
        forall|i: int|
            0 <= i < hs.len() && !is_host_name(hs[i].0) ==> keep_headers(hs).contains(hs[i]),
        forall|j: int|
            0 <= j < keep_headers(hs).len() ==> hs.contains(keep_headers(hs)[j]) && !is_host_name(
                keep_headers(hs)[j].0,
            ),
    decreases hs.len(),
{
    if hs.len() > 0 {
        let t = hs.drop_first();
        let k = keep_headers(hs);
        lemma_keep_headers_membership(t);
        assert forall|i: int| 0 <= i < hs.len() && !is_host_name(hs[i].0) implies k.contains(
            hs[i],
        ) by {
            if i == 0 {
                assert(k[0] == hs[0]);
            } else {
                assert(hs[i] == t[i - 1]);
                let j = choose|j: int| 0 <= j < keep_headers(t).len() && keep_headers(t)[j] == t[i
                    - 1];
                if is_host_name(hs[0].0) {
                    assert(k[j] == t[i - 1]);
                } else {
                    assert(k[j + 1] == t[i - 1]);
                }
            }
        }
        assert forall|j: int| 0 <= j < k.len() implies hs.contains(k[j]) && !is_host_name(
            k[j].0,
        ) by {
            if is_host_name(hs[0].0) {
                assert(k[j] == keep_headers(t)[j]);
                let i = choose|i: int| 0 <= i < t.len() && t[i] == k[j];
                assert(hs[i + 1] == k[j]);
            } else {
                if j == 0 {
                    assert(k[0] == hs[0]);
                } else {
                    assert(k[j] == keep_headers(t)[j - 1]);
                    let i = choose|i: int| 0 <= i < t.len() && t[i] == k[j];
                    assert(hs[i + 1] == k[j]);
                }
            }
        }
    }
}

/// Pass-through fidelity of the outbound header list: every non-`Host`
/// inbound header reaches the upstream exactly as it came; the final
/// `Host` header carries the upstream host; and every other outbound
/// header is one of the inbound ones, none of them a `Host` header.
pub proof fn lemma_forward_fidelity(hs: Seq<(Seq<char>, Seq<char>)>, host: Seq<char>)
    ensures
        forall|i: int|
            0 <= i < hs.len() && !is_host_name(hs[i].0) ==> forward_header_seq(
                hs,
                host,
            ).contains(hs[i]),
        forward_header_seq(hs, host).last() == (host_name(), host),
        forall|j: int|
            0 <= j < forward_header_seq(hs, host).len() - 1 ==> hs.contains(
                forward_header_seq(hs, host)[j],
            ) && !is_host_name(forward_header_seq(hs, host)[j].0),
{
    lemma_keep_headers_membership(hs);
    let k = keep_headers(hs);
    let f = forward_header_seq(hs, host);
    assert forall|i: int| 0 <= i < hs.len() && !is_host_name(hs[i].0) implies f.contains(hs[i]) by {
        let j = choose|j: int| 0 <= j < k.len() && k[j] == hs[i];
        assert(f[j] == hs[i]);
    }
    assert forall|j: int| 0 <= j < f.len() - 1 implies hs.contains(f[j]) && !is_host_name(
        f[j].0,
    ) by {
        assert(f[j] == k[j]);
    }
}

/// Transport selection is deterministic for the process's lifetime: any
/// two forwarding plans drawn from the same target select the same
/// client, the encrypted one exactly when the base's scheme is encrypted.
pub proof fn lemma_transport_deterministic(t: UpstreamTarget, first: ForwardPlan, second: ForwardPlan)
    requires
        t.wf(),
        first.use_tls == is_https(t.base@),
        second.use_tls == is_https(t.base@),
    ensures
        first.use_tls == second.use_tls,
        first.use_tls == t.tls,
{
}

/// What the proxy does with one inbound request.
pub enum Outcome {
    /// Answer locally: status 204, empty body, the preflight header list.
    /// No upstream call is made.
    Preflight { status: u16, headers: Vec<(String, String)> },
    /// Forward to the upstream as the plan says.
    Forward(ForwardPlan),
    /// Fail this request locally.
    Reject(ProxyError),
}

/// Everything the I/O layer needs to dispatch one rewritten request and
/// decorate its response.
pub struct ForwardPlan {
    /// The absolute target URI: the upstream base concatenated with the
    /// inbound path-and-query.
    pub uri: String,
    /// The value of the outbound `Host` header: the upstream's host
    /// component.
    pub host: String,
    /// Dispatch on the encrypted-transport client rather than the plain
    /// one.
    pub use_tls: bool,
    /// Headers to set, overwriting same-named ones, on the upstream's
    /// response before returning it.
    pub response_headers: Vec<(String, String)>,
}

/// Decides one inbound request, given its method and path-and-query: a
/// preflight is answered locally with status 204 and the preflight
/// headers; any other request is rewritten against the upstream target
/// and handed back as a forwarding plan, or rejected as malformed.
pub fn handle_request(
    policy: &CorsPolicy,
    target: &UpstreamTarget,
    method: &str,
    path_and_query: Option<&str>,
) -> (r: Outcome)
    requires
        target.wf(),
    ensures
        method@ == preflight_method() ==> (r matches Outcome::Preflight { status, headers }
            && status == 204 && headers.deep_view() == preflight_header_seq(*policy)),
        method@ != preflight_method() && path_and_query is None ==> r == Outcome::Reject(
            ProxyError::MalformedTarget,
        ),
        method@ != preflight_method() && (path_and_query matches Some(pq) && uri_ok(
            target.base@ + pq@,
        )) ==> (r matches Outcome::Forward(plan) && plan.uri@ == target.base@
            + path_and_query->0@ && plan.host@ == authority_of(target.base@) && plan.use_tls
            == is_https(target.base@) && plan.response_headers.deep_view() == response_header_seq(
            *policy,
        )),
        method@ != preflight_method() && (path_and_query matches Some(pq) && !uri_ok(
            target.base@ + pq@,
        )) ==> r == Outcome::Reject(ProxyError::MalformedTarget),
{
    if is_preflight(method) {
        return Outcome::Preflight { status: 204, headers: policy.preflight_headers() };
    }
    match path_and_query {
        None => Outcome::Reject(ProxyError::MalformedTarget),
        Some(pq) => match target.target_uri(pq) {
            Err(e) => Outcome::Reject(e),
            Ok(uri) => Outcome::Forward(
                ForwardPlan {
                    uri,
                    host: target.host.clone(),
                    use_tls: target.tls,
                    response_headers: policy.response_headers(),
                },
            ),
        },
    }
}

} // verus!
