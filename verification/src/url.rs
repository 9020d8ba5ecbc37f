//! URLs as the `url` crate (re-exported by `reqwest`) parses them.
use vstd::prelude::*;

verus! {

/// What the library reads of a parsed URL: its scheme, its host as text
/// and its port, or the scheme's default port.
pub struct UrlParts {
    pub scheme: String,
    pub host: Option<String>,
    pub port: Option<u16>,
}

/// The scheme, host and port (explicit or the scheme's default) of a text
/// that parses as a URL; `None` when it does not parse.
pub uninterp spec fn spec_parse_url(text: Seq<char>) -> Option<(Seq<char>, Option<Seq<char>>, Option<u16>)>;

/// The text of an optional string.
pub open spec fn optional_text(s: Option<String>) -> Option<Seq<char>> {
    match s {
        Some(t) => Some(t@),
        None => None,
    }
}

/// The parts of `p` as plain values.
pub open spec fn parts_view(p: UrlParts) -> (Seq<char>, Option<Seq<char>>, Option<u16>) {
    (p.scheme@, optional_text(p.host), p.port)
}

/// `reqwest::Url::parse`, with `scheme`, `host_str` and
/// `port_or_known_default` read off the result. The parts are a function of
/// the text alone.
#[verifier::external_body]
pub(crate) fn parse_url(text: &str) -> (parts: Option<UrlParts>)
    ensures
        match parts {
            Some(p) => spec_parse_url(text@) == Some(parts_view(p)),
            None => spec_parse_url(text@) is None,
        },
{
    match reqwest::Url::parse(text) {
        Ok(url) => Some(
            UrlParts {
                scheme: url.scheme().to_owned(),
                host: url.host_str().map(|h| h.to_owned()),
                port: url.port_or_known_default(),
            },
        ),
        Err(_) => None,
    }
}

/// The scheme of a text that parses as a URL.
pub open spec fn url_scheme(text: Seq<char>) -> Option<Seq<char>> {
    match spec_parse_url(text) {
        Some(parts) => Some(parts.0),
        None => None,
    }
}

} // verus!
