//! URLs that the relay connects to. This module holds nothing but the
//! parsed-URL type and the one place that builds it.

use vstd::prelude::*;
use crate::address::{url_parses, url_serialization};

verus! {

#[verifier::external_type_specification]
#[verifier::external_body]
pub struct ExUrl(url::Url);

#[verifier::external_type_specification]
#[verifier::external_body]
pub struct ExUrlParseError(url::ParseError);

/// A URL that `url::Url::parse` accepted, kept together with its
/// serialization. Its fields are private to this module, and the only code
/// here that builds one is `url_parse`, from the parsed `Url` and that URL's
/// own `as_str`; so the text is always the serialization of the URL that
/// `into_url` hands out, and nothing elsewhere can pair a URL with another
/// text.
#[derive(Debug)]
pub struct ConnectUrl {
    url: url::Url,
    text: String,
}

impl View for ConnectUrl {
    /// The URL's serialization.
    type V = Seq<char>;

    closed spec fn view(&self) -> Seq<char> {
        self.text@
    }
}

impl ConnectUrl {
    /// The URL's serialization.
    pub fn as_str(&self) -> (s: &str)
        ensures
            s@ == self@,
    {
        self.text.as_str()
    }

    /// The parsed URL, to connect to.
    pub fn into_url(self) -> url::Url {
        self.url
    }
}

/// `url::Url::parse`, with `Url::as_str` of the result. The contract claims
/// that parsing succeeds exactly when `url_parses` holds of the input, and
/// that the URL's serialization is `url_serialization` of the input.
#[verifier::external_body]
pub(crate) fn url_parse(input: &str) -> (r: Result<ConnectUrl, url::ParseError>)
    ensures
        r is Ok <==> url_parses(input@),
        r matches Ok(u) ==> u@ == url_serialization(input@),
{
    match url::Url::parse(input) {
        Ok(url) => Ok(ConnectUrl { text: url.as_str().to_string(), url }),
        Err(e) => Err(e),
    }
}

} // verus!
