use vstd::prelude::*;

verus! {

#[verifier::external_type_specification]
#[verifier::external_body]
pub struct ExUrl(url::Url);

#[verifier::external_type_specification]
#[verifier::external_body]
pub struct ExParseError(url::ParseError);

/// Whether the URL parser accepts the text as an absolute URL.
pub uninterp spec fn url_accepts(s: Seq<char>) -> bool;

/// Relies on `url::Url::parse`: whether a text parses depends on the text
/// alone.
#[verifier::external_body]
fn parse_url(s: &str) -> (r: Result<url::Url, url::ParseError>)
    ensures
        r is Ok <==> url_accepts(s@),
{
    url::Url::parse(s)
}

/// Why the address of the client could not be had.
#[derive(Clone, Copy, Debug, PartialEq, Eq, Structural)]
pub enum EndpointError {
    /// No address was given.
    Missing,
    /// The address given is not a URL.
    Invalid,
}

/// The address to connect to, from the program's first argument.
pub fn endpoint(arg: Option<String>) -> (r: Result<url::Url, EndpointError>)
    ensures
        arg is None ==> r matches Err(EndpointError::Missing),
        arg matches Some(s) ==> (r is Ok <==> url_accepts(s@)),
        arg matches Some(s) && !url_accepts(s@) ==> r matches Err(EndpointError::Invalid),
{
    match arg {
        None => Err(EndpointError::Missing),
        Some(text) => match parse_url(text.as_str()) {
            Ok(url) => Ok(url),
            Err(_) => Err(EndpointError::Invalid),
        },
    }
}

} // verus!
