//! Translating the upstream response back to the client: the `Location`
//! rewrite that keeps redirect chains routed through the proxy, and the
//! error responses the proxy emits itself.

use vstd::prelude::*;
use vstd::string::*;
use vstd::utf8::{decode_utf8, encode_utf8, valid_utf8};
use crate::headers::{
    Header, clone_header, copy_headers, find_header, hview, hviews, spec_find_header,
    spec_strip_name, strip_name_from,
};
use crate::strutil::{
    clone_bytes, name_eq_lower, name_matches, spec_dec_string, str_has_prefix, u16_dec_string,
    utf8_to_string,
};
use crate::urls::{TargetUrl, UrlParts, parse_absolute_url, spec_has_scheme_prefix, spec_parse_url};

verus! {

/// An optional string's characters.
pub open spec fn opt_view(o: Option<&str>) -> Option<Seq<char>> {
    match o {
        Some(s) => Some(s@),
        None => None,
    }
}

/// The fallback origin: the inbound URI's scheme (`http` where it carries
/// none), `://`, and the inbound `Host` header (`localhost:1234` where that
/// is absent or not UTF-8).
pub open spec fn spec_default_origin(hs: Seq<Header>, scheme: Option<Seq<char>>) -> Seq<char> {
    let sch = match scheme {
        Some(s) => s,
        None => "http"@,
    };
    let auth = match spec_find_header(hs, "host"@) {
        Some(v) => if valid_utf8(v) {
            decode_utf8(v)
        } else {
            "localhost:1234"@
        },
        None => "localhost:1234"@,
    };
    sch + "://"@ + auth
}

/// The origin by which the client reached the proxy: the `Origin` header
/// verbatim where one is present and UTF-8, the fallback origin otherwise.
pub open spec fn spec_request_origin(hs: Seq<Header>, scheme: Option<Seq<char>>) -> Seq<char> {
    match spec_find_header(hs, "origin"@) {
        Some(v) => if valid_utf8(v) {
            decode_utf8(v)
        } else {
            spec_default_origin(hs, scheme)
        },
        None => spec_default_origin(hs, scheme),
    }
}

/// Derives the proxy origin for one request.
pub fn get_request_origin(headers: &Vec<Header>, scheme: Option<&str>) -> (r: String)
    ensures
        r@ == spec_request_origin(headers@, opt_view(scheme)),
{
    if let Some(v) = find_header(headers, "origin") {
        if let Some(s) = utf8_to_string(&v) {
            return s;
        }
    }
    let mut out = match scheme {
        Some(s) => s.to_owned(),
        None => "http".to_owned(),
    };
    out.append("://");
    match find_header(headers, "host") {
        Some(v) => match utf8_to_string(&v) {
            Some(s) => out.append(s.as_str()),
            None => out.append("localhost:1234"),
        },
        None => out.append("localhost:1234"),
    }
    out
}

/// The target origin: the upstream scheme, `://`, its host (empty where it
/// has none), and `:port` where an explicit port is present.
pub open spec fn spec_target_origin(t: UrlParts) -> Seq<char> {
    let host = match t.host {
        Some(h) => h,
        None => Seq::<char>::empty(),
    };
    let base = t.scheme + "://"@ + host;
    match t.port {
        Some(p) => base + ":"@ + spec_dec_string(p as nat),
        None => base,
    }
}

/// Renders the target origin.
pub fn target_origin_string(t: &TargetUrl) -> (r: String)
    ensures
        r@ == spec_target_origin(t.parts()),
{
    let mut out = t.scheme.clone();
    out.append("://");
    match &t.host {
        Some(h) => out.append(h.as_str()),
        None => {
            proof {
                assert(out@ =~= t.scheme@ + "://"@ + Seq::<char>::empty());
            }
        },
    }
    match t.port {
        Some(p) => {
            out.append(":");
            let ds = u16_dec_string(p);
            out.append(ds.as_str());
        },
        None => {},
    }
    out
}

/// The rewritten `Location` value, where the rewriting rule produces one.
/// An absolute `http(s)` URL that parses is re-expressed as a path under
/// the proxy origin; a root-relative path is prefixed with the proxy
/// origin and the target origin; anything else is left alone.
pub open spec fn spec_rewrite_location(l: Seq<char>, origin: Seq<char>, t: UrlParts) -> Option<
    Seq<char>,
> {
    if spec_has_scheme_prefix(l) {
        if spec_parse_url(l) is Some {
            Some(origin + "/"@ + l)
        } else {
            None
        }
    } else if l.len() > 0 && l[0] == '/' {
        Some(origin + spec_target_origin(t) + l)
    } else {
        None
    }
}

/// Rewrites one `Location` value against the proxy origin derived from the
/// inbound request, or returns `None` where the value is to be forwarded
/// unchanged.
pub fn process_location_header(
    location: &str,
    request_headers: &Vec<Header>,
    request_scheme: Option<&str>,
    target: &TargetUrl,
) -> (r: Option<String>)
    ensures
        ({
            let rewritten = spec_rewrite_location(
                location@,
                spec_request_origin(request_headers@, opt_view(request_scheme)),
                target.parts(),
            );
            &&& (r is Some <==> rewritten is Some)
            &&& (r matches Some(s) ==> Some(s@) == rewritten)
        }),
{
    if str_has_prefix(location, "http://") || str_has_prefix(location, "https://") {
        if parse_absolute_url(location).is_some() {
            let mut out = get_request_origin(request_headers, request_scheme);
            out.append("/");
            out.append(location);
            return Some(out);
        }
        return None;
    }
    let n = location.unicode_len();
    if n > 0 && location.get_char(0) == '/' {
        let mut out = get_request_origin(request_headers, request_scheme);
        let to = target_origin_string(target);
        out.append(to.as_str());
        out.append(location);
        return Some(out);
    }
    None
}

/// The response headers after a `Location` rewrite: the first `location`
/// entry keeps its place and name but carries `new_value`; every later
/// `location` entry is dropped; everything else is unchanged.
pub open spec fn spec_replace_location(hs: Seq<Header>, new_value: Seq<u8>) -> Seq<
    (Seq<char>, Seq<u8>),
>
    decreases hs.len(),
{
    if hs.len() == 0 {
        Seq::empty()
    } else if name_matches(hs[0].name@, "location"@) {
        seq![(hs[0].name@, new_value)] + hviews(spec_strip_name(hs.drop_first(), "location"@))
    } else {
        seq![hview(hs[0])] + spec_replace_location(hs.drop_first(), new_value)
    }
}

/// Replaces the first `location` header's value and drops any later
/// `location` entries, as a header-map insert does.
fn replace_location(hs: &Vec<Header>, new_value: &Vec<u8>) -> (out: Vec<Header>)
    ensures
        hviews(out@) == spec_replace_location(hs@, new_value@),
{
    let mut out: Vec<Header> = Vec::new();
    let mut i: usize = 0;
    proof {
        assert(hs@.skip(0) =~= hs@);
        assert(hviews(out@) =~= Seq::<(Seq<char>, Seq<u8>)>::empty());
    }
    while i < hs.len()
        invariant
            0 <= i <= hs@.len(),
            hviews(out@) + spec_replace_location(hs@.skip(i as int), new_value@)
                == spec_replace_location(hs@, new_value@),
        decreases hs@.len() - i,
    {
        proof {
            assert(hs@.skip(i as int)[0] == hs@[i as int]);
            assert(hs@.skip(i as int).drop_first() =~= hs@.skip(i + 1));
        }
        if name_eq_lower(hs[i].name.as_str(), "location") {
            let ghost prev = out@;
            out.push(Header { name: hs[i].name.clone(), value: clone_bytes(new_value) });
            let mut rest = strip_name_from(hs, i + 1, "location");
            proof {
                assert(hviews(out@) =~= hviews(prev).push((hs@[i as int].name@, new_value@)));
            }
            let ghost mid = out@;
            out.append(&mut rest);
            proof {
                assert(hviews(out@) =~= hviews(mid) + hviews(
                    spec_strip_name(hs@.skip(i + 1), "location"@),
                ));
                assert(hviews(mid) =~= hviews(prev) + seq![(hs@[i as int].name@, new_value@)]);
                assert(spec_replace_location(hs@.skip(i as int), new_value@) =~= seq![
                    (hs@[i as int].name@, new_value@),
                ] + hviews(spec_strip_name(hs@.skip(i + 1), "location"@)));
                assert(hviews(out@) =~= spec_replace_location(hs@, new_value@));
            }
            return out;
        }
        let ghost prev = out@;
        out.push(clone_header(&hs[i]));
        proof {
            assert(hviews(out@) =~= hviews(prev) + seq![hview(hs@[i as int])]);
            assert(spec_replace_location(hs@.skip(i as int), new_value@) =~= seq![
                hview(hs@[i as int]),
            ] + spec_replace_location(hs@.skip(i + 1), new_value@));
        }
        i += 1;
    }
    proof {
        assert(hs@.skip(hs@.len() as int).len() == 0);
        assert(hviews(out@) =~= hviews(out@) + spec_replace_location(
            hs@.skip(hs@.len() as int),
            new_value@,
        ));
    }
    out
}

/// The response headers handed back to the client: where the upstream
/// response carries a `location` header whose value is UTF-8 and the
/// rewriting rule produces a new value, that value is inserted; otherwise
/// the headers pass through unchanged.
pub open spec fn spec_processed_headers(
    resp: Seq<Header>,
    req: Seq<Header>,
    scheme: Option<Seq<char>>,
    t: UrlParts,
) -> Seq<(Seq<char>, Seq<u8>)> {
    match spec_find_header(resp, "location"@) {
        Some(v) => if valid_utf8(v) {
            match spec_rewrite_location(decode_utf8(v), spec_request_origin(req, scheme), t) {
                Some(nl) => spec_replace_location(resp, encode_utf8(nl)),
                None => hviews(resp),
            }
        } else {
            hviews(resp)
        },
        None => hviews(resp),
    }
}

/// The response sent back to the client.
pub struct ClientResponse {
    /// The status code.
    pub status: u16,
    /// The headers.
    pub headers: Vec<Header>,
    /// The buffered body.
    pub body: Vec<u8>,
}

/// Builds the client response from the upstream one: the status and body
/// pass through verbatim; the headers pass through with the `Location`
/// rewrite applied.
pub fn translate_response(
    status: u16,
    resp_headers: &Vec<Header>,
    body: Vec<u8>,
    req_headers: &Vec<Header>,
    req_scheme: Option<&str>,
    target: &TargetUrl,
) -> (r: ClientResponse)
    ensures
        r.status == status,
        r.body@ == body@,
        hviews(r.headers@) == spec_processed_headers(
            resp_headers@,
            req_headers@,
            opt_view(req_scheme),
            target.parts(),
        ),
{
    let new_headers = match find_header(resp_headers, "location") {
        Some(v) => match utf8_to_string(&v) {
            Some(l) => match process_location_header(l.as_str(), req_headers, req_scheme, target) {
                Some(nl) => {
                    let nb = nl.as_str().as_bytes_vec();
                    replace_location(resp_headers, &nb)
                },
                None => copy_headers(resp_headers),
            },
            None => copy_headers(resp_headers),
        },
        None => copy_headers(resp_headers),
    };
    ClientResponse { status, headers: new_headers, body }
}

/// The `400 Bad Request` response for an unparseable target URL.
pub fn bad_target_response() -> (r: ClientResponse)
    ensures
        r.status == 400,
        r.headers@.len() == 0,
        r.body@ == encode_utf8("Invalid target URL"@),
{
    ClientResponse {
        status: 400,
        headers: Vec::new(),
        body: "Invalid target URL".as_bytes_vec(),
    }
}

/// The `502 Bad Gateway` response for a failed upstream dispatch.
pub fn upstream_failure_response(message: &str) -> (r: ClientResponse)
    ensures
        r.status == 502,
        r.headers@.len() == 0,
        r.body@ == encode_utf8("Request failed: "@ + message@),
{
    let mut text = "Request failed: ".to_owned();
    text.append(message);
    ClientResponse { status: 502, headers: Vec::new(), body: text.as_str().as_bytes_vec() }
}

/// The `500 Internal Server Error` response for any other pipeline failure.
pub fn proxy_error_response(message: &str) -> (r: ClientResponse)
    ensures
        r.status == 500,
        r.headers@.len() == 0,
        r.body@ == encode_utf8("Proxy error: "@ + message@),
{
    let mut text = "Proxy error: ".to_owned();
    text.append(message);
    ClientResponse { status: 500, headers: Vec::new(), body: text.as_str().as_bytes_vec() }
}

} // verus!
