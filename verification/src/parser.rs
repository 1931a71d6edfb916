//! What a style sheet's surroundings give to the parsing of its values.

use url::Url;
use vstd::prelude::*;
use vstd::string::StringExecFns;

verus! {

/// The URL that the reference `reference` denotes in a document whose own
/// URL is `base`; `None` where `base` is no URL or the reference cannot be
/// resolved against it.
pub uninterp spec fn resolved_url(base: Seq<char>, reference: Seq<char>) -> Option<Seq<char>>;

/// Calls `url::Url::parse` on `base` and `url::Url::join` on the result, with
/// `reference`. The URL that comes back is handed on as its text.
#[verifier::external_body]
fn join_url(base: &str, reference: &str) -> (joined: Option<String>)
    ensures
        match joined {
            Some(url) => resolved_url(base@, reference@) == Some(url@),
            None => resolved_url(base@, reference@) is None,
        },
{
    Url::parse(base).ok()?.join(reference).ok().map(String::from)
}

/// The surroundings of a style sheet.
pub struct ParserContext {
    /// The URL of the style sheet, against which the URLs in it are resolved.
    pub base_url: String,
}

/// The URL that a reference comes to: the URL it was resolved to, or
/// `about:invalid` where it could not be resolved.
pub open spec fn spec_url_or_invalid(resolved: Option<Seq<char>>) -> Seq<char> {
    match resolved {
        Some(url) => url,
        None => "about:invalid"@,
    }
}

/// Replaces a reference that could not be resolved by `about:invalid`.
pub fn url_or_invalid(resolved: Option<String>) -> (url: String)
    ensures
        url@ == spec_url_or_invalid(
            match resolved {
                Some(text) => Some(text@),
                None => None,
            },
        ),
{
    match resolved {
        Some(url) => url,
        None => String::from_str("about:invalid"),
    }
}

impl ParserContext {
    /// The absolute URL that `reference` denotes in this style sheet; the
    /// URL `about:invalid` where it denotes none.
    pub open spec fn spec_parse_url(self, reference: Seq<char>) -> Seq<char> {
        spec_url_or_invalid(resolved_url(self.base_url@, reference))
    }

    /// Resolves a URL found in the style sheet.
    pub fn parse_url(&self, input: &str) -> (url: String)
        ensures
            url@ == self.spec_parse_url(input@),
    {
        url_or_invalid(join_url(self.base_url.as_str(), input))
    }
}

} // verus!
