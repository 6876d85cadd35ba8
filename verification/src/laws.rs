//! The laws the pipeline obeys, stated over the specification functions
//! that the executable functions' contracts use.

use vstd::prelude::*;
use crate::headers::{Header, hview, hviews, lemma_strip_name_free, spec_strip_name};
use crate::strutil::name_matches;
use crate::urls::{spec_has_scheme_prefix, spec_parse_url, spec_strip_slash, spec_target_string};
use crate::response::spec_rewrite_location;
use crate::urls::UrlParts;

verus! {

/// Host rewrite law: after header translation exactly one `Host` header is
/// present — the final entry — and it carries the upstream authority value;
/// no other entry's lowercased name is `host`.
pub proof fn lemma_host_rewrite(hs: Seq<Header>, out: Seq<Header>, value: Seq<u8>)
    requires
        hviews(out) == hviews(spec_strip_name(hs, "host"@)).push(("host"@, value)),
    ensures
        out.len() > 0,
        name_matches(out[out.len() - 1].name@, "host"@),
        out[out.len() - 1].value@ == value,
        forall|i: int| 0 <= i < out.len() - 1 ==> !name_matches(#[trigger] out[i].name@, "host"@),
{
    lemma_strip_name_free(hs, "host"@);
    let stripped = spec_strip_name(hs, "host"@);
    assert(hviews(out).len() == out.len());
    assert(out.len() == stripped.len() + 1);
    let last = out.len() - 1;
    assert(hviews(out)[last] == hview(out[last]));
    assert(hviews(out)[last] == ("host"@, value));
    assert(out[last].name@ == "host"@);
    assert forall|i: int| 0 <= i < last implies !name_matches(
        #[trigger] out[i].name@,
        "host"@,
    ) by {
        assert(hviews(out)[i] == hview(out[i]));
        assert(hviews(out)[i] == hviews(stripped)[i]);
        assert(hviews(stripped)[i] == hview(stripped[i]));
        assert(out[i].name@ == stripped[i].name@);
    }
}

/// Idempotent-origin law for absolute redirects: a rewritten `Location` is
/// the proxy origin followed by the path `/` + the original absolute URL;
/// when a client requests that path against the proxy, extraction hands
/// exactly the original URL back to the parser, so the proxied redirect
/// reaches the target the upstream named.
pub proof fn lemma_rewritten_location_routes_back(l: Seq<char>, origin: Seq<char>, t: UrlParts)
    requires
        spec_has_scheme_prefix(l),
        spec_parse_url(l) is Some,
    ensures
        spec_rewrite_location(l, origin, t) == Some(origin + ("/"@ + l)),
        spec_target_string("/"@ + l) == l,
        spec_parse_url(spec_target_string("/"@ + l)) == spec_parse_url(l),
{
    reveal_strlit("/");
    let p = "/"@ + l;
    assert(p.len() == 1 + l.len());
    assert(p[0] == '/');
    assert(spec_strip_slash(p) =~= l);
    assert(spec_rewrite_location(l, origin, t) == Some(origin + "/"@ + l));
    assert(origin + "/"@ + l =~= origin + ("/"@ + l));
}

} // verus!
