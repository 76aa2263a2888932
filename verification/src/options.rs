//! What a caller asks of one rendering.

use vstd::prelude::*;
use crate::span::TimeSpan;

verus! {

/// Where the browser backend is looked for unless the caller says otherwise.
pub const CHROMEDRIVER_CONNECTION_URL: &'static str = "http://127.0.0.1:4444";

/// Seconds given to the scripts of the page unless the caller says otherwise.
pub const OUTPUT_DELAY_SECS: u64 = 2;

/// The input of one rendering.
#[derive(Debug)]
pub struct RenderOptions<'a> {
    /// The HTML to render: as a rule the whole body of a response.
    pub html: &'a str,
    /// The URL that the HTML came from, or at least its origin. It must be an
    /// absolute URL with a host.
    pub url: &'a str,
    /// Address and port at which the browser backend listens;
    /// [`CHROMEDRIVER_CONNECTION_URL`] if not set.
    pub chromedriver_url: Option<&'a str>,
    /// The time that the scripts of the page are given before the page source
    /// is retrieved; [`OUTPUT_DELAY_SECS`] seconds if not set. Any span is
    /// accepted; less than two seconds is seldom enough.
    pub output_delay: Option<TimeSpan>,
}

/// [`RenderOptions`] with its texts as sequences of characters.
pub struct RenderOptionsView {
    pub html: Seq<char>,
    pub url: Seq<char>,
    pub chromedriver_url: Option<Seq<char>>,
    pub output_delay: Option<TimeSpan>,
}

/// The view of a text that may be absent.
pub open spec fn text_option_view(text: Option<&str>) -> Option<Seq<char>> {
    match text {
        Some(text) => Some(text@),
        None => None,
    }
}

impl<'a> View for RenderOptions<'a> {
    type V = RenderOptionsView;

    open spec fn view(&self) -> RenderOptionsView {
        RenderOptionsView {
            html: self.html@,
            url: self.url@,
            chromedriver_url: text_option_view(self.chromedriver_url),
            output_delay: self.output_delay,
        }
    }
}

impl RenderOptionsView {
    /// The address of the browser backend: the one asked for, or the default.
    pub open spec fn endpoint(self) -> Seq<char> {
        match self.chromedriver_url {
            Some(endpoint) => endpoint,
            None => CHROMEDRIVER_CONNECTION_URL@,
        }
    }

    /// The output delay: the one asked for, or the default.
    pub open spec fn delay(self) -> TimeSpan {
        match self.output_delay {
            Some(delay) => delay,
            None => TimeSpan::of(OUTPUT_DELAY_SECS, 0),
        }
    }
}

impl<'a> Default for RenderOptions<'a> {
    /// No HTML, no URL, and the defaults for the rest.
    fn default() -> (options: Self)
        ensures
            options@ == (RenderOptionsView {
                html: Seq::empty(),
                url: Seq::empty(),
                chromedriver_url: None,
                output_delay: None,
            }),
    {
        proof {
            reveal_strlit("");
        }
        let options = RenderOptions { html: "", url: "", chromedriver_url: None, output_delay: None };
        assert(options.html@ =~= Seq::empty());
        options
    }
}

impl<'a> RenderOptions<'a> {
    /// The address of the browser backend: the one asked for, or
    /// [`CHROMEDRIVER_CONNECTION_URL`].
    pub fn endpoint(&self) -> (endpoint: &'a str)
        ensures
            endpoint@ == self@.endpoint(),
    {
        match self.chromedriver_url {
            Some(endpoint) => endpoint,
            None => CHROMEDRIVER_CONNECTION_URL,
        }
    }

    /// The output delay: the one asked for, or [`OUTPUT_DELAY_SECS`] seconds.
    pub fn delay(&self) -> (delay: TimeSpan)
        ensures
            delay == self@.delay(),
    {
        match self.output_delay {
            Some(delay) => delay,
            None => TimeSpan::from_secs(OUTPUT_DELAY_SECS),
        }
    }
}

} // verus!
