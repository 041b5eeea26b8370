//! The parts of a URL that an image reference is read from.

use vstd::prelude::*;

verus! {

/// Host and path of a parsed URL.
#[derive(Debug, Clone, PartialEq, Eq)]
pub struct UrlParts {
    pub host: Option<String>,
    pub path: String,
}

/// Host and path of a parsed URL, as sequences of characters.
pub struct UrlPartsView {
    pub host: Option<Seq<char>>,
    pub path: Seq<char>,
}

impl View for UrlParts {
    type V = UrlPartsView;

    open spec fn view(&self) -> UrlPartsView {
        UrlPartsView {
            host: match self.host {
                Some(h) => Some(h@),
                None => None,
            },
            path: self.path@,
        }
    }
}

/// Why `url::Url::parse` rejected a text. Carried through, never read.
#[verifier::external_type_specification]
#[verifier::external_body]
pub struct ExParseError(url::ParseError);

/// Host and path that the URL parser reads from `text`, or `None` where it
/// rejects `text`.
pub uninterp spec fn url_parts(text: Seq<char>) -> Option<UrlPartsView>;

/// Calls `url::Url::parse` and copies out `Url::host_str` and `Url::path`.
///
/// Trusted: the parser's answer depends on `text` alone, so the result is
/// named `url_parts(text@)`. Nothing is claimed about which texts parse or
/// about what host and path hold.
#[verifier::external_body]
pub(crate) fn parse_url(text: &str) -> (res: Result<UrlParts, url::ParseError>)
    ensures
        res is Ok <==> url_parts(text@) is Some,
        res matches Ok(parts) ==> url_parts(text@) == Some(parts@),
{
    let url = url::Url::parse(text)?;
    Ok(UrlParts { host: url.host_str().map(|h| h.to_string()), path: url.path().to_string() })
}

} // verus!
