//! Renders script-driven HTML through a WebDriver-controlled headless browser.
//!
//! Raw HTML and the URL it came from go in; the browser is made to load the
//! URL, the HTML is written into the page, the scripts of the page are given
//! some time, and the page source as the browser then has it comes out.
//!
//! The library holds the decisions of one rendering and none of its
//! input or output: [`render_html`] gives the first [`Step`], and
//! [`advance`] each further one from what the backend answered. Performing
//! the commands, against a real backend or a recorded one, is the caller's
//! part.

pub mod address;
pub mod error;
pub mod laws;
pub mod options;
pub mod render;
pub mod replay;
pub mod response;
pub mod script;
pub mod session;
pub mod span;

pub use crate::address::{origin_of, origin_of_parts, UrlParts};
pub use crate::error::RenderError;
pub use crate::options::RenderOptions;
pub use crate::render::{begin, render_html};
pub use crate::replay::{replay, Trace};
pub use crate::response::{page_of, FetchedResponse, HTMLRendererExt, Page};
pub use crate::session::{
    advance, Capabilities, Command, Event, PageLoadStrategy, RenderState, Step,
};
pub use crate::span::TimeSpan;
