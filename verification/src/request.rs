//! Building the upstream request: the stringified target URI, the `Host`
//! rewrite, and the buffered body, ready for dispatch.

use vstd::prelude::*;
use vstd::string::*;
use vstd::utf8::encode_utf8;
use crate::headers::{
    Header, hview, hviews, lemma_strip_name_free, spec_strip_name, strip_name_from,
};
use crate::strutil::{name_matches, spec_dec_string, u16_dec_string};
use crate::urls::{
    TargetUrl, extract_target, spec_has_scheme_prefix, spec_parse_url, spec_strip_slash,
    spec_target_string, target_is_https,
};

verus! {

/// The authority for the upstream host: `host` alone, or `host:port` where
/// an explicit port is present.
pub open spec fn spec_authority(host: Seq<char>, port: Option<u16>) -> Seq<char> {
    match port {
        None => host,
        Some(p) => host + ":"@ + spec_dec_string(p as nat),
    }
}

/// Renders the upstream authority.
pub fn authority_string(host: &str, port: Option<u16>) -> (r: String)
    ensures
        r@ == spec_authority(host@, port),
{
    match port {
        None => host.to_owned(),
        Some(p) => {
            let mut out = host.to_owned();
            out.append(":");
            let ds = u16_dec_string(p);
            out.append(ds.as_str());
            out
        },
    }
}

/// Copies the headers, removes every `Host` entry (whatever its case), and
/// appends a single `host` header carrying `authority`.
pub fn translate_headers(hs: &Vec<Header>, authority: &str) -> (out: Vec<Header>)
    ensures
        hviews(out@) == hviews(spec_strip_name(hs@, "host"@)).push(
            ("host"@, encode_utf8(authority@)),
        ),
{
    proof {
        assert(hs@.skip(0) =~= hs@);
    }
    let mut out = strip_name_from(hs, 0, "host");
    let ghost prev = out@;
    let h = Header { name: "host".to_owned(), value: authority.as_bytes_vec() };
    out.push(h);
    proof {
        assert(hviews(out@) =~= hviews(prev).push(("host"@, encode_utf8(authority@))));
    }
    out
}

/// A request ready for upstream dispatch.
pub struct UpstreamRequest {
    /// The request method, verbatim.
    pub method: String,
    /// The parsed upstream URL; its serialization is the URI to request.
    pub target: TargetUrl,
    /// Whether dispatch must use TLS.
    pub https: bool,
    /// The headers to send: the inbound ones with `Host` rewritten.
    pub headers: Vec<Header>,
    /// The buffered request body, byte-identical to the inbound one.
    pub body: Vec<u8>,
}

/// The outcome of preparing an inbound request for dispatch.
pub enum PrepareOutcome {
    /// The request path does not name a parseable target URL.
    BadTarget,
    /// Forward the request upstream.
    Forward(UpstreamRequest),
}

/// Translates an inbound request into the upstream one: derives the target
/// URL from the path (defaulting the scheme to `https`), copies the method
/// and body verbatim, and rewrites the `Host` header to the upstream
/// authority.
pub fn prepare_upstream(method: String, path: &str, headers: &Vec<Header>, body: Vec<u8>) -> (r:
    PrepareOutcome)
    ensures
        r is BadTarget <==> spec_parse_url(spec_target_string(path@)) is None,
        r matches PrepareOutcome::Forward(u) ==> {
            let parts = spec_parse_url(spec_target_string(path@)).unwrap();
            &&& u.target.parts() == parts
            &&& u.method@ == method@
            &&& u.https == (parts.scheme == "https"@)
            &&& u.body@ == body@
            &&& match parts.host {
                Some(h) => hviews(u.headers@) == hviews(spec_strip_name(headers@, "host"@)).push(
                    ("host"@, encode_utf8(spec_authority(h, parts.port))),
                ),
                None => hviews(u.headers@) == hviews(spec_strip_name(headers@, "host"@)),
            }
        },
        r matches PrepareOutcome::Forward(u) ==> (!spec_has_scheme_prefix(spec_strip_slash(path@)) ==> u.https),
        r matches PrepareOutcome::Forward(u) ==> ("http://"@.is_prefix_of(spec_strip_slash(path@))
            ==> !u.https),
        // Host rewrite: where the target has a host, exactly one `Host`
        // header goes upstream — the final one, carrying the authority.
        r matches PrepareOutcome::Forward(u) ==> ({
            let parts = spec_parse_url(spec_target_string(path@)).unwrap();
            parts.host matches Some(h) ==> {
                &&& u.headers@.len() > 0
                &&& name_matches(u.headers@[u.headers@.len() - 1].name@, "host"@)
                &&& u.headers@[u.headers@.len() - 1].value@ == encode_utf8(
                    spec_authority(h, parts.port),
                )
                &&& forall|i: int|
                    0 <= i < u.headers@.len() - 1 ==> !name_matches(
                        #[trigger] u.headers@[i].name@,
                        "host"@,
                    )
            }
        }),
        // Where the target has no host, every inbound `Host` entry is
        // stripped and none is added.
        r matches PrepareOutcome::Forward(u) ==> ({
            let parts = spec_parse_url(spec_target_string(path@)).unwrap();
            parts.host is None ==> forall|i: int|
                0 <= i < u.headers@.len() ==> !name_matches(
                    #[trigger] u.headers@[i].name@,
                    "host"@,
                )
        }),
{
    let target = match extract_target(path) {
        Some(t) => t,
        None => {
            return PrepareOutcome::BadTarget;
        },
    };
    let https = target_is_https(&target);
    proof {
        reveal_strlit("http");
        reveal_strlit("https");
        assert("http"@.len() == 4);
        assert("https"@.len() == 5);
        assert("http"@ != "https"@);
        assert(headers@.skip(0) =~= headers@);
    }
    let new_headers = match &target.host {
        Some(h) => {
            let auth = authority_string(h.as_str(), target.port);
            let translated = translate_headers(headers, auth.as_str());
            proof {
                crate::laws::lemma_host_rewrite(headers@, translated@, encode_utf8(auth@));
            }
            translated
        },
        None => {
            let stripped = strip_name_from(headers, 0, "host");
            proof {
                lemma_strip_name_free(headers@, "host"@);
                let model = spec_strip_name(headers@, "host"@);
                assert(hviews(stripped@).len() == stripped@.len());
                assert(hviews(model).len() == model.len());
                assert forall|i: int| 0 <= i < stripped@.len() implies !name_matches(
                    #[trigger] stripped@[i].name@,
                    "host"@,
                ) by {
                    assert(hviews(stripped@)[i] == hview(stripped@[i]));
                    assert(hviews(model)[i] == hview(model[i]));
                };
            }
            stripped
        },
    };
    PrepareOutcome::Forward(
        UpstreamRequest { method, target, https, headers: new_headers, body },
    )
}

} // verus!
