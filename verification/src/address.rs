//! URLs, as far as a rendering reads them: the scheme and the host.

use vstd::prelude::*;
use vstd::string::StringExecFns;
use crate::error::{outcome_view, RenderError, RenderErrorView};

verus! {

/// What stands between the scheme and the host of an origin.
pub const SCHEME_SEPARATOR: &'static str = "://";

/// The scheme of a parsed URL, and its host where it has one.
#[derive(Debug, PartialEq, Eq)]
pub struct UrlParts {
    /// The scheme, without the colon that ends it.
    pub scheme: String,
    /// The host as it is written in the URL, or `None` for a URL without one.
    pub host: Option<String>,
}

/// [`UrlParts`] with its texts as sequences of characters.
pub struct UrlPartsView {
    pub scheme: Seq<char>,
    pub host: Option<Seq<char>>,
}

impl View for UrlParts {
    type V = UrlPartsView;

    open spec fn view(&self) -> UrlPartsView {
        UrlPartsView {
            scheme: self.scheme@,
            host: match self.host {
                Some(host) => Some(host@),
                None => None,
            },
        }
    }
}

/// The view of the parts of a URL, where it could be parsed.
pub open spec fn parts_option_view(parts: Option<UrlParts>) -> Option<UrlPartsView> {
    match parts {
        Some(parts) => Some(parts@),
        None => None,
    }
}

/// What the URL parser makes of `text`: the scheme and host of the absolute
/// URL that it reads there, or `None` where it reads none.
pub uninterp spec fn parsed_url(text: Seq<char>) -> Option<UrlPartsView>;

/// Parses `text` with `url::Url::parse` and reads the result with
/// `Url::scheme` and `Url::host_str`.
///
/// Trusted: the result is [`parsed_url`] of the text, that is, parsing is a
/// function of the text alone. Nothing is claimed about which texts parse or
/// what their parts are.
#[verifier::external_body]
pub(crate) fn parse_url(text: &str) -> (parts: Option<UrlParts>)
    ensures
        parts_option_view(parts) == parsed_url(text@),
{
    match url::Url::parse(text) {
        Ok(url) => Some(
            UrlParts { scheme: url.scheme().to_owned(), host: url.host_str().map(str::to_owned) },
        ),
        Err(_) => None,
    }
}

/// Whether a parsed URL can be rendered against: it was parsed, and it has a
/// host.
pub open spec fn has_host(parsed: Option<UrlPartsView>) -> bool {
    parsed matches Some(parts) && parts.host is Some
}

/// The origin of a parsed URL: its scheme, `://` and its host, and nothing of
/// what else the URL holds. A text that is no URL, and a URL without a host,
/// have none.
pub open spec fn origin_of_parsed(parsed: Option<UrlPartsView>) -> Result<
    Seq<char>,
    RenderErrorView,
> {
    match parsed {
        Some(UrlPartsView { scheme, host: Some(host) }) => Ok(scheme + SCHEME_SEPARATOR@ + host),
        _ => Err(RenderErrorView::InvalidUrl),
    }
}

/// The origin of a URL given by its parts: `scheme://host`, or
/// [`RenderError::InvalidUrl`] where the URL has no host.
pub fn origin_of_parts(parts: &UrlParts) -> (origin: Result<String, RenderError>)
    ensures
        outcome_view(origin) == origin_of_parsed(Some(parts@)),
{
    match &parts.host {
        Some(host) => {
            let mut origin = parts.scheme.clone();
            origin.append(SCHEME_SEPARATOR);
            origin.append(host.as_str());
            Ok(origin)
        },
        None => Err(RenderError::InvalidUrl),
    }
}

/// The origin of the URL written in `url`: `scheme://host`, whatever path,
/// query or fragment follows. Fails with [`RenderError::InvalidUrl`] where
/// `url` is no absolute URL or has no host.
pub fn origin_of(url: &str) -> (origin: Result<String, RenderError>)
    ensures
        outcome_view(origin) == origin_of_parsed(parsed_url(url@)),
{
    match parse_url(url) {
        Some(parts) => origin_of_parts(&parts),
        None => Err(RenderError::InvalidUrl),
    }
}

} // verus!
