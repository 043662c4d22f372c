//! The address of a broker, read from its URL by the `url` crate.

use vstd::prelude::*;

verus! {

/// What a URL says of where the broker is.
pub struct UrlParts {
    /// The host, where the URL names one.
    pub host: Option<String>,
    /// The port, where the URL names one that is not the default of its scheme.
    pub port: Option<u16>,
}

/// What a URL says of where the broker is, in the model.
pub struct UrlPartsView {
    pub host: Option<Seq<char>>,
    pub port: Option<u16>,
}

impl View for UrlParts {
    type V = UrlPartsView;

    open spec fn view(&self) -> UrlPartsView {
        UrlPartsView {
            host: match self.host {
                Some(h) => Some(h@),
                None => None,
            },
            port: self.port,
        }
    }
}

/// What `url::Url::parse` makes of a text: host and port as `Url::host_str`
/// and `Url::port` give them, or the text of the parse error.
pub uninterp spec fn parsed_url(input: Seq<char>) -> Result<UrlPartsView, Seq<char>>;

/// Calls `url::Url::parse`, then `Url::host_str` and `Url::port` on the
/// result, or takes the text of the error. Trusted: the outcome depends on
/// the text handed in and on nothing else.
#[verifier::external_body]
pub(crate) fn parse_url(input: &str) -> (parts: Result<UrlParts, String>)
    ensures
        match parsed_url(input@) {
            Ok(view) => parts matches Ok(p) && p@ == view,
            Err(text) => parts matches Err(e) && e@ == text,
        },
{
    match url::Url::parse(input) {
        Ok(u) => match u.host_str() {
            Some(h) => Ok(UrlParts { host: Some(h.to_string()), port: u.port() }),
            None => Ok(UrlParts { host: None, port: u.port() }),
        },
        Err(e) => Err(e.to_string()),
    }
}

} // verus!
