//! The upstream URL: extraction from the request path, scheme defaulting,
//! and the parsed fields the pipeline reads.

use vstd::prelude::*;
use vstd::string::*;
use crate::strutil::{str_has_prefix, str_eq};

verus! {

/// The fields of a parsed absolute URL that the pipeline reads.
pub struct TargetUrl {
    /// The scheme, as the parser normalized it (ASCII lowercase).
    pub scheme: String,
    /// The host, where the URL has one.
    pub host: Option<String>,
    /// The port, where one is written and is not the scheme's default.
    pub port: Option<u16>,
    /// The normalized serialization of the whole URL.
    pub serialized: String,
}

/// The mathematical content of a `TargetUrl`.
pub ghost struct UrlParts {
    pub scheme: Seq<char>,
    pub host: Option<Seq<char>>,
    pub port: Option<u16>,
    pub serialized: Seq<char>,
}

impl TargetUrl {
    pub open spec fn parts(&self) -> UrlParts {
        UrlParts {
            scheme: self.scheme@,
            host: match self.host {
                Some(h) => Some(h@),
                None => None,
            },
            port: self.port,
            serialized: self.serialized@,
        }
    }
}

/// What `url::Url::parse` yields on a given string: `None` where parsing
/// fails, otherwise the scheme, host, explicit port and serialization of
/// the parsed URL.
pub uninterp spec fn spec_parse_url(s: Seq<char>) -> Option<UrlParts>;

/// Relies on `url::Url::parse` and the accessors `scheme`, `host_str`,
/// `port` and `as_str`. Parsing depends on the input string alone. The
/// scheme is what stands before the first `:`, ASCII-lowercased, so an
/// input with an `http://` or `https://` prefix parses to that scheme.
#[verifier::external_body]
pub(crate) fn parse_absolute_url(s: &str) -> (r: Option<TargetUrl>)
    ensures
        r is Some <==> spec_parse_url(s@) is Some,
        r matches Some(t) ==> Some(t.parts()) == spec_parse_url(s@),
        r matches Some(t) ==> ("https://"@.is_prefix_of(s@) ==> t.scheme@ == "https"@),
        r matches Some(t) ==> ("http://"@.is_prefix_of(s@) ==> t.scheme@ == "http"@),
{
    match url::Url::parse(s) {
        Ok(u) => Some(TargetUrl {
            scheme: u.scheme().to_string(),
            host: u.host_str().map(|h| h.to_string()),
            port: u.port(),
            serialized: u.as_str().to_string(),
        }),
        Err(_) => None,
    }
}

/// Whether `s` begins with an explicit `http://` or `https://` prefix.
pub open spec fn spec_has_scheme_prefix(s: Seq<char>) -> bool {
    "http://"@.is_prefix_of(s) || "https://"@.is_prefix_of(s)
}

/// The request path with one leading `/` removed, if one is present.
pub open spec fn spec_strip_slash(path: Seq<char>) -> Seq<char> {
    if path.len() > 0 && path[0] == '/' {
        path.drop_first()
    } else {
        path
    }
}

/// The string handed to the URL parser: the stripped path, prefixed with
/// `https://` where no explicit scheme prefix is present.
pub open spec fn spec_target_string(path: Seq<char>) -> Seq<char> {
    let s = spec_strip_slash(path);
    if spec_has_scheme_prefix(s) {
        s
    } else {
        "https://"@ + s
    }
}

/// Builds the absolute-URL string for a request path.
pub fn target_url_string(path: &str) -> (r: String)
    ensures
        r@ == spec_target_string(path@),
{
    let n = path.unicode_len();
    let stripped: &str = if n > 0 && path.get_char(0) == '/' {
        path.substring_char(1, n)
    } else {
        path
    };
    proof {
        assert(stripped@ =~= spec_strip_slash(path@));
    }
    if str_has_prefix(stripped, "http://") || str_has_prefix(stripped, "https://") {
        stripped.to_owned()
    } else {
        let mut out = "https://".to_owned();
        out.append(stripped);
        out
    }
}

/// Derives the upstream URL from the raw request path: strips one leading
/// slash, defaults the scheme to `https`, and parses the result. Any path
/// without an explicit scheme prefix is therefore dispatched as `https`.
pub fn extract_target(path: &str) -> (r: Option<TargetUrl>)
    ensures
        r is Some <==> spec_parse_url(spec_target_string(path@)) is Some,
        r matches Some(t) ==> Some(t.parts()) == spec_parse_url(spec_target_string(path@)),
        r matches Some(t) ==> (!spec_has_scheme_prefix(spec_strip_slash(path@)) ==> t.scheme@
            == "https"@),
        r matches Some(t) ==> ("https://"@.is_prefix_of(spec_strip_slash(path@)) ==> t.scheme@
            == "https"@),
        r matches Some(t) ==> ("http://"@.is_prefix_of(spec_strip_slash(path@)) ==> t.scheme@
            == "http"@),
{
    let target = target_url_string(path);
    proof {
        if !spec_has_scheme_prefix(spec_strip_slash(path@)) {
            let s = spec_strip_slash(path@);
            assert(("https://"@ + s).subrange(0, "https://"@.len() as int) =~= "https://"@);
        }
    }
    parse_absolute_url(target.as_str())
}

/// Whether the target uses the `https` scheme.
pub fn target_is_https(t: &TargetUrl) -> (r: bool)
    ensures
        r == (t.parts().scheme == "https"@),
{
    str_eq(t.scheme.as_str(), "https")
}

} // verus!
