//! Rendering the body of a fetched HTTP response.

use vstd::prelude::*;
use crate::address::{
    origin_of_parsed, origin_of_parts, parse_url, parsed_url, parts_option_view, UrlParts,
    UrlPartsView,
};
use crate::error::{RenderError, RenderErrorView};
use crate::options::{text_option_view, RenderOptions, RenderOptionsView};
use crate::render::{render_html, start};
use crate::script::{argument_view, json_text};
use crate::session::{Step, StepView};
use crate::span::TimeSpan;

verus! {

/// A completed HTTP response, as far as a rendering reads it.
#[derive(Debug, PartialEq, Eq)]
pub struct FetchedResponse {
    /// The URL that the response came from.
    pub url: String,
    /// The whole body as text, or the report of why it could not be read.
    pub body: Result<String, String>,
}

/// A [`FetchedResponse`] with its texts as sequences of characters.
pub struct FetchedResponseView {
    pub url: Seq<char>,
    pub body: Result<Seq<char>, Seq<char>>,
}

impl View for FetchedResponse {
    type V = FetchedResponseView;

    open spec fn view(&self) -> FetchedResponseView {
        FetchedResponseView { url: self.url@, body: argument_view(self.body) }
    }
}

/// A page to render: the origin that its scripts run under, and its HTML.
#[derive(Debug, PartialEq, Eq)]
pub struct Page {
    pub origin: String,
    pub html: String,
}

/// A [`Page`] with its texts as sequences of characters.
pub struct PageView {
    pub origin: Seq<char>,
    pub html: Seq<char>,
}

impl View for Page {
    type V = PageView;

    open spec fn view(&self) -> PageView {
        PageView { origin: self.origin@, html: self.html@ }
    }
}

/// The view of a page, or of the error in its place.
pub open spec fn page_result_view(page: Result<Page, RenderError>) -> Result<
    PageView,
    RenderErrorView,
> {
    match page {
        Ok(page) => Ok(page@),
        Err(error) => Err(error@),
    }
}

/// The page that a response gives, where `parsed` is what the URL parser
/// made of its URL. The URL is looked at first: without a host the body is
/// of no interest. Only the origin of the URL is kept.
pub open spec fn page_of_parsed(
    parsed: Option<UrlPartsView>,
    body: Result<Seq<char>, Seq<char>>,
) -> Result<PageView, RenderErrorView> {
    match origin_of_parsed(parsed) {
        Err(error) => Err(error),
        Ok(origin) => match body {
            Err(reason) => Err(RenderErrorView::BodyReadFailed(reason)),
            Ok(html) => Ok(PageView { origin, html }),
        },
    }
}

/// The page that a response with the URL parts `parsed` and the body `body`
/// gives: [`RenderError::InvalidUrl`] for a URL that is none or has no host,
/// else [`RenderError::BodyReadFailed`] for a body that could not be read,
/// else the origin of the URL with the body as HTML.
pub fn page_of(parsed: Option<UrlParts>, body: Result<String, String>) -> (page: Result<
    Page,
    RenderError,
>)
    ensures
        page_result_view(page) == page_of_parsed(parts_option_view(parsed), argument_view(body)),
{
    let origin = match parsed {
        Some(parts) => origin_of_parts(&parts),
        None => Err(RenderError::InvalidUrl),
    };
    match origin {
        Err(error) => Err(error),
        Ok(origin) => match body {
            Err(reason) => Err(RenderError::BodyReadFailed(reason)),
            Ok(html) => Ok(Page { origin, html }),
        },
    }
}

/// The first step of rendering a response: the end of the rendering where
/// the response gives no page, else the first step of rendering its body as
/// a page of its origin.
pub open spec fn start_of_response(
    response: FetchedResponseView,
    chromedriver_url: Option<Seq<char>>,
    output_delay: Option<TimeSpan>,
) -> StepView {
    match page_of_parsed(parsed_url(response.url), response.body) {
        Err(error) => StepView::Finished(Err(error)),
        Ok(page) => start(
            RenderOptionsView {
                html: page.html,
                url: page.origin,
                chromedriver_url,
                output_delay,
            },
            parsed_url(page.origin),
            json_text(page.html),
        ),
    }
}

/// Rendering as an operation of the thing that holds the HTML.
pub trait HTMLRendererExt: Sized {
    /// The first step of rendering what `self` holds.
    spec fn first_step(
        self,
        chromedriver_url: Option<Seq<char>>,
        output_delay: Option<TimeSpan>,
    ) -> StepView;

    /// Begins to render the HTML that `self` holds. `chromedriver_url` and
    /// `output_delay` are those of [`RenderOptions`], with the same defaults.
    fn render(self, chromedriver_url: Option<&str>, output_delay: Option<TimeSpan>) -> (step: Step)
        ensures
            step@ == self.first_step(text_option_view(chromedriver_url), output_delay),
    ;
}

impl HTMLRendererExt for FetchedResponse {
    open spec fn first_step(
        self,
        chromedriver_url: Option<Seq<char>>,
        output_delay: Option<TimeSpan>,
    ) -> StepView {
        start_of_response(self@, chromedriver_url, output_delay)
    }

    /// Begins to render the body of the response as a page of the origin of
    /// its URL.
    fn render(self, chromedriver_url: Option<&str>, output_delay: Option<TimeSpan>) -> (step: Step) {
        let parsed = parse_url(self.url.as_str());
        match page_of(parsed, self.body) {
            Err(error) => Step::Finished(Err(error)),
            Ok(page) => render_html(
                RenderOptions {
                    html: page.html.as_str(),
                    url: page.origin.as_str(),
                    chromedriver_url,
                    output_delay,
                },
            ),
        }
    }
}

} // verus!
