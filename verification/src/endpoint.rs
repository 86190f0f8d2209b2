//! Specifications for the URL type of the `url` crate.

use url::ParseError;
use url::Url;
use vstd::prelude::*;

verus! {

/// A parsed URL, `url::Url`. Its inside is not looked at: a value is carried
/// as the parser made it.
#[verifier::external_type_specification]
#[verifier::external_body]
pub struct ExUrl(Url);

/// The reason why a text is no URL, `url::ParseError`.
#[verifier::external_type_specification]
#[verifier::external_body]
pub struct ExParseError(ParseError);

/// What `Url::parse` makes of a text: the URL, or why the text is none.
pub uninterp spec fn parsed_url(input: Seq<char>) -> Result<Url, ParseError>;

/// `Url::parse`: parses an absolute URL. The outcome depends on the text
/// alone; nothing is said here of which texts are URLs.
pub assume_specification[ Url::parse ](input: &str) -> (outcome: Result<Url, ParseError>)
    ensures
        outcome == parsed_url(input@),
;

/// `Url::clone`: the clone of a URL is the same URL.
pub assume_specification[ <Url as Clone>::clone ](url: &Url) -> (copy: Url)
    ensures
        copy == *url,
;

} // verus!
