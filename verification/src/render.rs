//! The start of a rendering.

use vstd::prelude::*;
use crate::address::{has_host, parse_url, parsed_url, parts_option_view, UrlParts, UrlPartsView};
use crate::error::{RenderError, RenderErrorView};
use crate::options::{RenderOptions, RenderOptionsView};
use crate::script::{argument_view, encode_json, json_text};
use crate::session::{
    rendering_capabilities, Capabilities, Command, CommandView, PageLoadStrategy, RenderState,
    RenderStateView, Step, StepView,
};

verus! {

/// The first step of a rendering of `options`, where the URL parser made
/// `parsed` of the URL and the JSON serializer made `encoded` of the HTML.
///
/// A URL that is none, or has no host, ends the rendering before the backend
/// hears of it. Otherwise a session is asked for, at the address and with
/// the output delay that the options give or leave to the defaults.
pub open spec fn start(
    options: RenderOptionsView,
    parsed: Option<UrlPartsView>,
    encoded: Result<Seq<char>, Seq<char>>,
) -> StepView {
    if has_host(parsed) {
        StepView::Continue {
            state: RenderStateView::Connecting {
                url: options.url,
                argument: encoded,
                delay: options.delay(),
            },
            command: CommandView::CreateSession {
                endpoint: options.endpoint(),
                capabilities: rendering_capabilities(),
            },
        }
    } else {
        StepView::Finished(Err(RenderErrorView::InvalidUrl))
    }
}

/// Begins a rendering of `options`, given what the URL parser made of the URL
/// and what the JSON serializer made of the HTML.
pub fn begin(
    options: RenderOptions<'_>,
    parsed: Option<UrlParts>,
    encoded: Result<String, String>,
) -> (step: Step)
    ensures
        step@ == start(options@, parts_option_view(parsed), argument_view(encoded)),
{
    let valid = match &parsed {
        Some(parts) => parts.host.is_some(),
        None => false,
    };
    if !valid {
        return Step::Finished(Err(RenderError::InvalidUrl));
    }
    Step::Continue {
        state: RenderState::Connecting {
            url: options.url.to_owned(),
            argument: encoded,
            delay: options.delay(),
        },
        command: Command::CreateSession {
            endpoint: options.endpoint().to_owned(),
            capabilities: Capabilities {
                headless: true,
                page_load_strategy: PageLoadStrategy::NoWait,
            },
        },
    }
}

/// Begins to render `options.html` as a page of `options.url`.
///
/// The result is the first step of the rendering: the command to create the
/// browser session, with the state to hand to [`crate::session::advance`]
/// once the backend has answered; or, for a URL without a host, the end of
/// the rendering with [`RenderError::InvalidUrl`] and no command at all.
pub fn render_html(options: RenderOptions<'_>) -> (step: Step)
    ensures
        step@ == start(options@, parsed_url(options.url@), json_text(options.html@)),
{
    let parsed = parse_url(options.url);
    let encoded = encode_json(options.html);
    begin(options, parsed, encoded)
}

} // verus!
