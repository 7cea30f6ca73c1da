//! The CORS policy: six optional header values, fixed at startup, and the
//! computation of the header lists that decorate preflight and proxied
//! responses.

use vstd::prelude::*;
use vstd::string::StringExecFns;

verus! {

/// The configured CORS policy. Each field is either a non-empty header
/// value, to be emitted verbatim, or the empty string, meaning the
/// corresponding header is omitted.
#[derive(Clone, Debug)]
pub struct CorsPolicy {
    pub allow_origin: String,
    pub allow_methods: String,
    pub allow_headers: String,
    pub allow_credentials: String,
    pub expose_headers: String,
    pub max_age: String,
}

pub open spec fn allow_origin_name() -> Seq<char> {
    "Access-Control-Allow-Origin"@
}

pub open spec fn allow_methods_name() -> Seq<char> {
    "Access-Control-Allow-Methods"@
}

pub open spec fn allow_headers_name() -> Seq<char> {
    "Access-Control-Allow-Headers"@
}

pub open spec fn allow_credentials_name() -> Seq<char> {
    "Access-Control-Allow-Credentials"@
}

pub open spec fn expose_headers_name() -> Seq<char> {
    "Access-Control-Expose-Headers"@
}

pub open spec fn max_age_name() -> Seq<char> {
    "Access-Control-Max-Age"@
}

/// A header list contribution: one `(name, value)` pair when the value is
/// non-empty, nothing when it is empty.
pub open spec fn opt_header(name: Seq<char>, value: Seq<char>) -> Seq<(Seq<char>, Seq<char>)> {
    if value.len() == 0 {
        Seq::empty()
    } else {
        seq![(name, value)]
    }
}

/// The headers of a preflight response: the five preflight-relevant policy
/// fields, in this order, each present exactly when configured non-empty.
/// The expose-headers value is deliberately absent here: it belongs only on
/// the actual cross-origin response.
pub open spec fn preflight_header_seq(p: CorsPolicy) -> Seq<(Seq<char>, Seq<char>)> {
    opt_header(allow_origin_name(), p.allow_origin@) + opt_header(
        allow_methods_name(),
        p.allow_methods@,
    ) + opt_header(allow_headers_name(), p.allow_headers@) + opt_header(
        allow_credentials_name(),
        p.allow_credentials@,
    ) + opt_header(max_age_name(), p.max_age@)
}

/// The headers injected onto a proxied response: origin, credentials and
/// expose-headers, each present exactly when configured non-empty. The
/// preflight-only fields (methods, headers, max-age) are deliberately
/// absent here.
pub open spec fn response_header_seq(p: CorsPolicy) -> Seq<(Seq<char>, Seq<char>)> {
    opt_header(allow_origin_name(), p.allow_origin@) + opt_header(
        allow_credentials_name(),
        p.allow_credentials@,
    ) + opt_header(expose_headers_name(), p.expose_headers@)
}

/// A header named `name` occurs in the list `hs`.
pub open spec fn has_header(hs: Seq<(Seq<char>, Seq<char>)>, name: Seq<char>) -> bool {
    exists|i: int| 0 <= i < hs.len() && hs[i].0 == name
}

/// Appends `(name, value)` to `out` when `value` is non-empty.
fn push_opt_header(out: &mut Vec<(String, String)>, name: &str, value: &String)
    ensures
        final(out).deep_view() == old(out).deep_view() + opt_header(name@, value@),
{
    if !value.as_str().is_empty() {
        out.push((String::from_str(name), value.clone()));
        proof {
            assert(final(out).deep_view() =~= old(out).deep_view() + opt_header(name@, value@));
        }
    } else {
        proof {
            assert(final(out).deep_view() =~= old(out).deep_view() + opt_header(name@, value@));
        }
    }
}

impl CorsPolicy {
    /// The header list of a preflight response under this policy.
    pub fn preflight_headers(&self) -> (r: Vec<(String, String)>)
        ensures
            r.deep_view() == preflight_header_seq(*self),
    {
        let mut r: Vec<(String, String)> = Vec::new();
        proof {
            assert(r.deep_view() =~= Seq::<(Seq<char>, Seq<char>)>::empty());
        }
        push_opt_header(&mut r, "Access-Control-Allow-Origin", &self.allow_origin);
        push_opt_header(&mut r, "Access-Control-Allow-Methods", &self.allow_methods);
        push_opt_header(&mut r, "Access-Control-Allow-Headers", &self.allow_headers);
        push_opt_header(&mut r, "Access-Control-Allow-Credentials", &self.allow_credentials);
        push_opt_header(&mut r, "Access-Control-Max-Age", &self.max_age);
        proof {
            assert(r.deep_view() =~= preflight_header_seq(*self));
        }
        r
    }

    /// The headers injected onto a proxied response under this policy.
    pub fn response_headers(&self) -> (r: Vec<(String, String)>)
        ensures
            r.deep_view() == response_header_seq(*self),
    {
        let mut r: Vec<(String, String)> = Vec::new();
        proof {
            assert(r.deep_view() =~= Seq::<(Seq<char>, Seq<char>)>::empty());
        }
        push_opt_header(&mut r, "Access-Control-Allow-Origin", &self.allow_origin);
        push_opt_header(&mut r, "Access-Control-Allow-Credentials", &self.allow_credentials);
        push_opt_header(&mut r, "Access-Control-Expose-Headers", &self.expose_headers);
        proof {
            assert(r.deep_view() =~= response_header_seq(*self));
        }
        r
    }
}

/// The six header names are pairwise distinct.
proof fn lemma_names_distinct()
    ensures
        allow_origin_name() != allow_methods_name(),
        allow_origin_name() != allow_headers_name(),
        allow_origin_name() != allow_credentials_name(),
        allow_origin_name() != expose_headers_name(),
        allow_origin_name() != max_age_name(),
        allow_methods_name() != allow_headers_name(),
        allow_methods_name() != allow_credentials_name(),
        allow_methods_name() != expose_headers_name(),
        allow_methods_name() != max_age_name(),
        allow_headers_name() != allow_credentials_name(),
        allow_headers_name() != expose_headers_name(),
        allow_headers_name() != max_age_name(),
        allow_credentials_name() != expose_headers_name(),
        allow_credentials_name() != max_age_name(),
        expose_headers_name() != max_age_name(),
{
    reveal_strlit("Access-Control-Allow-Origin");
    reveal_strlit("Access-Control-Allow-Methods");
    reveal_strlit("Access-Control-Allow-Headers");
    reveal_strlit("Access-Control-Allow-Credentials");
    reveal_strlit("Access-Control-Expose-Headers");
    reveal_strlit("Access-Control-Max-Age");
    assert(allow_origin_name().len() == 27);
    assert(allow_methods_name().len() == 28);
    assert(allow_headers_name().len() == 28);
    assert(allow_credentials_name().len() == 32);
    assert(expose_headers_name().len() == 29);
    assert(max_age_name().len() == 22);
    assert(allow_methods_name()[21] != allow_headers_name()[21]);
}

/// For every policy field, the corresponding header stands in the header
/// list of the response kind it applies to exactly when the configured
/// value is non-empty, and then with exactly that value; the
/// preflight-only fields never appear on a proxied response, and the
/// expose-headers field never appears on a preflight response.
pub proof fn lemma_policy_header_presence(p: CorsPolicy)
    ensures
        has_header(preflight_header_seq(p), allow_origin_name()) <==> p.allow_origin@.len() > 0,
        has_header(preflight_header_seq(p), allow_methods_name()) <==> p.allow_methods@.len() > 0,
        has_header(preflight_header_seq(p), allow_headers_name()) <==> p.allow_headers@.len() > 0,
        has_header(preflight_header_seq(p), allow_credentials_name()) <==> p.allow_credentials@.len() > 0,
        has_header(preflight_header_seq(p), max_age_name()) <==> p.max_age@.len() > 0,
        p.allow_origin@.len() > 0 ==> preflight_header_seq(p).contains(
            (allow_origin_name(), p.allow_origin@),
        ),
        p.allow_methods@.len() > 0 ==> preflight_header_seq(p).contains(
            (allow_methods_name(), p.allow_methods@),
        ),
        p.allow_headers@.len() > 0 ==> preflight_header_seq(p).contains(
            (allow_headers_name(), p.allow_headers@),
        ),
        p.allow_credentials@.len() > 0 ==> preflight_header_seq(p).contains(
            (allow_credentials_name(), p.allow_credentials@),
        ),
        p.max_age@.len() > 0 ==> preflight_header_seq(p).contains((max_age_name(), p.max_age@)),
        forall|i: int|
            0 <= i < preflight_header_seq(p).len() && preflight_header_seq(p)[i].0
                == allow_origin_name() ==> preflight_header_seq(p)[i].1 == p.allow_origin@,
        forall|i: int|
            0 <= i < preflight_header_seq(p).len() && preflight_header_seq(p)[i].0
                == allow_methods_name() ==> preflight_header_seq(p)[i].1 == p.allow_methods@,
        forall|i: int|
            0 <= i < preflight_header_seq(p).len() && preflight_header_seq(p)[i].0
                == allow_headers_name() ==> preflight_header_seq(p)[i].1 == p.allow_headers@,
        forall|i: int|
            0 <= i < preflight_header_seq(p).len() && preflight_header_seq(p)[i].0
                == allow_credentials_name() ==> preflight_header_seq(p)[i].1
                == p.allow_credentials@,
        forall|i: int|
            0 <= i < preflight_header_seq(p).len() && preflight_header_seq(p)[i].0
                == max_age_name() ==> preflight_header_seq(p)[i].1 == p.max_age@,
        !has_header(preflight_header_seq(p), expose_headers_name()),
        has_header(response_header_seq(p), allow_origin_name()) <==> p.allow_origin@.len() > 0,
        has_header(response_header_seq(p), allow_credentials_name()) <==> p.allow_credentials@.len()
            > 0,
        has_header(response_header_seq(p), expose_headers_name()) <==> p.expose_headers@.len() > 0,
        p.allow_origin@.len() > 0 ==> response_header_seq(p).contains(
            (allow_origin_name(), p.allow_origin@),
        ),
        p.allow_credentials@.len() > 0 ==> response_header_seq(p).contains(
            (allow_credentials_name(), p.allow_credentials@),
        ),
        p.expose_headers@.len() > 0 ==> response_header_seq(p).contains(
            (expose_headers_name(), p.expose_headers@),
        ),
        forall|i: int|
            0 <= i < response_header_seq(p).len() && response_header_seq(p)[i].0
                == allow_origin_name() ==> response_header_seq(p)[i].1 == p.allow_origin@,
        forall|i: int|
            0 <= i < response_header_seq(p).len() && response_header_seq(p)[i].0
                == allow_credentials_name() ==> response_header_seq(p)[i].1
                == p.allow_credentials@,
        forall|i: int|
            0 <= i < response_header_seq(p).len() && response_header_seq(p)[i].0
                == expose_headers_name() ==> response_header_seq(p)[i].1 == p.expose_headers@,
        !has_header(response_header_seq(p), allow_methods_name()),
        !has_header(response_header_seq(p), allow_headers_name()),
        !has_header(response_header_seq(p), max_age_name()),
{
    lemma_names_distinct();
    let s = preflight_header_seq(p);
    let o = opt_header(allow_origin_name(), p.allow_origin@);
    let m = opt_header(allow_methods_name(), p.allow_methods@);
    let h = opt_header(allow_headers_name(), p.allow_headers@);
    let c = opt_header(allow_credentials_name(), p.allow_credentials@);
    let a = opt_header(max_age_name(), p.max_age@);
    assert forall|i: int| 0 <= i < s.len() implies (s[i] == (
        allow_origin_name(),
        p.allow_origin@,
    ) && p.allow_origin@.len() > 0) || (s[i] == (allow_methods_name(), p.allow_methods@)
        && p.allow_methods@.len() > 0) || (s[i] == (allow_headers_name(), p.allow_headers@)
        && p.allow_headers@.len() > 0) || (s[i] == (allow_credentials_name(), p.allow_credentials@)
        && p.allow_credentials@.len() > 0) || (s[i] == (max_age_name(), p.max_age@)
        && p.max_age@.len() > 0) by {
        assert(s == o + m + h + c + a);
    }
    if p.allow_origin@.len() > 0 {
        assert(s[0] == (allow_origin_name(), p.allow_origin@));
        assert(s[0].0 == allow_origin_name());
    }
    if p.allow_methods@.len() > 0 {
        let i = o.len() as int;
        assert(s[i] == (allow_methods_name(), p.allow_methods@));
        assert(s[i].0 == allow_methods_name());
    }
    if p.allow_headers@.len() > 0 {
        let i = (o.len() + m.len()) as int;
        assert(s[i] == (allow_headers_name(), p.allow_headers@));
        assert(s[i].0 == allow_headers_name());
    }
    if p.allow_credentials@.len() > 0 {
        let i = (o.len() + m.len() + h.len()) as int;
        assert(s[i] == (allow_credentials_name(), p.allow_credentials@));
        assert(s[i].0 == allow_credentials_name());
    }
    if p.max_age@.len() > 0 {
        let i = (o.len() + m.len() + h.len() + c.len()) as int;
        assert(s[i] == (max_age_name(), p.max_age@));
        assert(s[i].0 == max_age_name());
    }
    let r = response_header_seq(p);
    let rc = opt_header(allow_credentials_name(), p.allow_credentials@);
    let re = opt_header(expose_headers_name(), p.expose_headers@);
    assert forall|i: int| 0 <= i < r.len() implies (r[i] == (
        allow_origin_name(),
        p.allow_origin@,
    ) && p.allow_origin@.len() > 0) || (r[i] == (allow_credentials_name(), p.allow_credentials@)
        && p.allow_credentials@.len() > 0) || (r[i] == (expose_headers_name(), p.expose_headers@)
        && p.expose_headers@.len() > 0) by {
        assert(r == o + rc + re);
    }
    if p.allow_origin@.len() > 0 {
        assert(r[0] == (allow_origin_name(), p.allow_origin@));
        assert(r[0].0 == allow_origin_name());
    }
    if p.allow_credentials@.len() > 0 {
        let i = o.len() as int;
        assert(r[i] == (allow_credentials_name(), p.allow_credentials@));
        assert(r[i].0 == allow_credentials_name());
    }
    if p.expose_headers@.len() > 0 {
        let i = (o.len() + rc.len()) as int;
        assert(r[i] == (expose_headers_name(), p.expose_headers@));
        assert(r[i].0 == expose_headers_name());
    }
}

} // verus!
