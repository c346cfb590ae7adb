//! Parsing of the request target.

use vstd::prelude::*;

verus! {

/// What the URL parser makes of a text: the normalised absolute URL, or the
/// parser's message when the text is no absolute URL.
pub uninterp spec fn parsed_url(input: Seq<char>) -> Result<Seq<char>, Seq<char>>;

/// The view of a parse result.
pub open spec fn parse_view(r: Result<String, String>) -> Result<Seq<char>, Seq<char>> {
    match r {
        Ok(url) => Ok(url@),
        Err(message) => Err(message@),
    }
}

/// Calls `reqwest::Url::parse` on `input`. Trusted: the result depends on the
/// text alone, so it is given the name [`parsed_url`]. On success the
/// serialisation of the parsed URL is returned, on failure the display text
/// of the parser's error. Nothing more is claimed of either.
#[verifier::external_body]
pub(crate) fn parse_url(input: &str) -> (r: Result<String, String>)
    ensures
        parse_view(r) == parsed_url(input@),
{
    match reqwest::Url::parse(input) {
        Ok(url) => Ok(String::from(url)),
        Err(err) => Err(err.to_string()),
    }
}

} // verus!
