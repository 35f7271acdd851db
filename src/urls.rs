//! URLs, held as their serialization. Parsing and resolving them is the
//! url crate's work; these are the only places that call it.

use vstd::prelude::*;

use crate::error::Error;

verus! {

/// The url crate's parse error, which the library maps to its own errors.
#[verifier::external_type_specification]
#[verifier::external_body]
pub struct ExParseError(url::ParseError);

/// The serialization of the absolute URL that `text` writes, if it writes one.
pub uninterp spec fn url_parsed(text: Seq<char>) -> Option<Seq<char>>;

/// The serialization of `rel` resolved against the URL `base`, if both read.
pub uninterp spec fn url_joined(base: Seq<char>, rel: Seq<char>) -> Option<Seq<char>>;

/// The last segment of the path of the URL `text`, if it reads and has a
/// path made of segments.
pub uninterp spec fn url_last_segment(text: Seq<char>) -> Option<Seq<char>>;

/// Relies on `url::Url::parse`: reads an absolute URL; the result is its
/// serialization.
#[verifier::external_body]
pub(crate) fn parse_url(text: &str) -> (r: Result<String, url::ParseError>)
    ensures
        match r {
            Ok(u) => url_parsed(text@) == Some(u@),
            Err(_) => url_parsed(text@) is None,
        },
{
    url::Url::parse(text).map(String::from)
}

/// Relies on `url::Url::join` (on the URL that `url::Url::parse` reads from
/// `base`): resolves a relative reference; the result is its serialization.
#[verifier::external_body]
pub(crate) fn join_url(base: &str, rel: &str) -> (r: Result<String, url::ParseError>)
    ensures
        match r {
            Ok(u) => url_joined(base@, rel@) == Some(u@),
            Err(_) => url_joined(base@, rel@) is None,
        },
{
    match url::Url::parse(base) {
        Ok(b) => b.join(rel).map(String::from),
        Err(e) => Err(e),
    }
}

/// Relies on `url::Url::path_segments` (on the URL that `url::Url::parse`
/// reads from `text`): the last of the path's segments.
#[verifier::external_body]
pub(crate) fn last_segment(text: &str) -> (r: Option<String>)
    ensures
        match r {
            Some(s) => url_last_segment(text@) == Some(s@),
            None => url_last_segment(text@) is None,
        },
{
    match url::Url::parse(text) {
        Ok(u) => match u.path_segments() {
            Some(segments) => segments.last().map(String::from),
            None => None,
        },
        Err(_) => None,
    }
}


/// The last path component of `url`, as the name of a file.
pub fn url_last(url: &str) -> (r: Result<String, Error>)
    ensures
        match url_last_segment(url@) {
            Some(seg) => r matches Ok(s) && s@ == seg,
            None => r matches Err(Error::URLExtractError { url: u }) && u@ == url@,
        },
{
    match last_segment(url) {
        Some(s) => Ok(s),
        None => Err(Error::URLExtractError { url: String::from_str(url) }),
    }
}

} // verus!
