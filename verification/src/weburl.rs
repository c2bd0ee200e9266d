//! URLs as plain values: the parts of a parsed URL that the shell reads.

use vstd::prelude::*;

verus! {

/// The parts of a parsed URL, as sequences of characters.
pub struct UrlParts {
    /// The whole serialization (`Url::as_str`).
    pub href: Seq<char>,
    /// The scheme, lower-cased, without the `:`.
    pub scheme: Seq<char>,
    /// The host, if the URL has one (`Url::host_str`).
    pub host: Option<Seq<char>>,
    /// The explicit port, absent when it is the scheme's default (`Url::port`).
    pub port: Option<u16>,
    /// The ASCII serialization of the origin.
    pub origin: Seq<char>,
    /// The query pairs, percent-decoded, in order (`Url::query_pairs`).
    pub query: Seq<(Seq<char>, Seq<char>)>,
}

/// A parsed URL held as plain values.
pub struct ParsedUrl {
    pub href: String,
    pub scheme: String,
    pub host: Option<String>,
    pub port: Option<u16>,
    pub origin: String,
    pub query: Vec<(String, String)>,
}

pub open spec fn opt_string_view(o: Option<String>) -> Option<Seq<char>> {
    match o {
        Some(s) => Some(s@),
        None => None,
    }
}

pub open spec fn pairs_view(v: Seq<(String, String)>) -> Seq<(Seq<char>, Seq<char>)> {
    v.map_values(|p: (String, String)| (p.0@, p.1@))
}

impl View for ParsedUrl {
    type V = UrlParts;

    open spec fn view(&self) -> UrlParts {
        UrlParts {
            href: self.href@,
            scheme: self.scheme@,
            host: opt_string_view(self.host),
            port: self.port,
            origin: self.origin@,
            query: pairs_view(self.query@),
        }
    }
}

/// What `url::Url::parse` gives for `input`: the parts of the URL, or the text
/// of the parse error.
pub uninterp spec fn url_parse_outcome(input: Seq<char>) -> Result<UrlParts, Seq<char>>;

/// `url::Url::parse`, with the parsed URL read into plain values and the error
/// turned into its message. The outcome is named `url_parse_outcome`; nothing
/// more is claimed of the url crate.
#[verifier::external_body]
pub(crate) fn parse_url(input: &str) -> (r: Result<ParsedUrl, String>)
    ensures
        match r {
            Ok(u) => url_parse_outcome(input@) == Ok::<UrlParts, Seq<char>>(u@),
            Err(e) => url_parse_outcome(input@) == Err::<UrlParts, Seq<char>>(e@),
        },
{
    match url::Url::parse(input) {
        Ok(u) => Ok(ParsedUrl {
            href: u.as_str().to_string(),
            scheme: u.scheme().to_string(),
            host: u.host_str().map(String::from),
            port: u.port(),
            origin: u.origin().ascii_serialization(),
            query: u.query_pairs().into_owned().collect(),
        }),
        Err(e) => Err(e.to_string()),
    }
}

} // verus!
