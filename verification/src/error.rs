//! What a rendering can fail with.

use vstd::prelude::*;

verus! {

/// The reason a rendering ended without rendered HTML. Each reason names the
/// phase that failed; where the failure was reported by someone else, the
/// report is carried along as it was given.
#[derive(Debug, PartialEq, Eq)]
pub enum RenderError {
    /// The URL cannot be split into a scheme and a host.
    InvalidUrl,
    /// The body of the response could not be read as text.
    BodyReadFailed(String),
    /// The browser backend could not be reached to create a session.
    BackendUnavailable(String),
    /// The browser backend was reached and refused to create a session.
    SessionCreationFailed(String),
    /// The session could not be navigated to the URL.
    NavigationFailed(String),
    /// The script that writes the HTML into the page failed.
    ScriptExecutionFailed(String),
    /// The HTML could not be encoded as an argument of the script.
    SerializationFailed(String),
    /// The page source did not arrive before the watchdog fired.
    RenderTimeout,
    /// The HTML was retrieved, and closing the session failed afterwards.
    SessionTeardownFailed(String),
}

/// A [`RenderError`] with its texts as sequences of characters.
pub enum RenderErrorView {
    InvalidUrl,
    BodyReadFailed(Seq<char>),
    BackendUnavailable(Seq<char>),
    SessionCreationFailed(Seq<char>),
    NavigationFailed(Seq<char>),
    ScriptExecutionFailed(Seq<char>),
    SerializationFailed(Seq<char>),
    RenderTimeout,
    SessionTeardownFailed(Seq<char>),
}

impl View for RenderError {
    type V = RenderErrorView;

    open spec fn view(&self) -> RenderErrorView {
        match *self {
            RenderError::InvalidUrl => RenderErrorView::InvalidUrl,
            RenderError::BodyReadFailed(reason) => RenderErrorView::BodyReadFailed(reason@),
            RenderError::BackendUnavailable(reason) => RenderErrorView::BackendUnavailable(reason@),
            RenderError::SessionCreationFailed(reason) => RenderErrorView::SessionCreationFailed(
                reason@,
            ),
            RenderError::NavigationFailed(reason) => RenderErrorView::NavigationFailed(reason@),
            RenderError::ScriptExecutionFailed(reason) => RenderErrorView::ScriptExecutionFailed(
                reason@,
            ),
            RenderError::SerializationFailed(reason) => RenderErrorView::SerializationFailed(
                reason@,
            ),
            RenderError::RenderTimeout => RenderErrorView::RenderTimeout,
            RenderError::SessionTeardownFailed(reason) => RenderErrorView::SessionTeardownFailed(
                reason@,
            ),
        }
    }
}

impl Clone for RenderError {
    fn clone(&self) -> (copy: RenderError)
        ensures
            copy@ == self@,
    {
        match self {
            RenderError::InvalidUrl => RenderError::InvalidUrl,
            RenderError::BodyReadFailed(reason) => RenderError::BodyReadFailed(reason.clone()),
            RenderError::BackendUnavailable(reason) => RenderError::BackendUnavailable(
                reason.clone(),
            ),
            RenderError::SessionCreationFailed(reason) => RenderError::SessionCreationFailed(
                reason.clone(),
            ),
            RenderError::NavigationFailed(reason) => RenderError::NavigationFailed(reason.clone()),
            RenderError::ScriptExecutionFailed(reason) => RenderError::ScriptExecutionFailed(
                reason.clone(),
            ),
            RenderError::SerializationFailed(reason) => RenderError::SerializationFailed(
                reason.clone(),
            ),
            RenderError::RenderTimeout => RenderError::RenderTimeout,
            RenderError::SessionTeardownFailed(reason) => RenderError::SessionTeardownFailed(
                reason.clone(),
            ),
        }
    }
}

/// What is said of a URL that has no host.
pub const INVALID_URL_MESSAGE: &'static str = "Cannot-be-a-base URL not supported";

/// What is said when the watchdog fired before the page source arrived.
pub const RENDER_TIMEOUT_MESSAGE: &'static str = "Page source retrieval timed out";

impl RenderErrorView {
    /// The text that describes the error: a fixed sentence for the two errors
    /// that this library finds by itself, the carried report for the others.
    pub open spec fn message(self) -> Seq<char> {
        match self {
            RenderErrorView::InvalidUrl => INVALID_URL_MESSAGE@,
            RenderErrorView::RenderTimeout => RENDER_TIMEOUT_MESSAGE@,
            RenderErrorView::BodyReadFailed(reason) => reason,
            RenderErrorView::BackendUnavailable(reason) => reason,
            RenderErrorView::SessionCreationFailed(reason) => reason,
            RenderErrorView::NavigationFailed(reason) => reason,
            RenderErrorView::ScriptExecutionFailed(reason) => reason,
            RenderErrorView::SerializationFailed(reason) => reason,
            RenderErrorView::SessionTeardownFailed(reason) => reason,
        }
    }
}

impl RenderError {
    /// The text that describes the error.
    pub fn message(&self) -> (text: String)
        ensures
            text@ == self@.message(),
    {
        match self {
            RenderError::InvalidUrl => INVALID_URL_MESSAGE.to_owned(),
            RenderError::RenderTimeout => RENDER_TIMEOUT_MESSAGE.to_owned(),
            RenderError::BodyReadFailed(reason) => reason.clone(),
            RenderError::BackendUnavailable(reason) => reason.clone(),
            RenderError::SessionCreationFailed(reason) => reason.clone(),
            RenderError::NavigationFailed(reason) => reason.clone(),
            RenderError::ScriptExecutionFailed(reason) => reason.clone(),
            RenderError::SerializationFailed(reason) => reason.clone(),
            RenderError::SessionTeardownFailed(reason) => reason.clone(),
        }
    }
}

/// The view of what a rendering ends with: the rendered HTML, or the error.
pub open spec fn outcome_view(outcome: Result<String, RenderError>) -> Result<
    Seq<char>,
    RenderErrorView,
> {
    match outcome {
        Ok(html) => Ok(html@),
        Err(error) => Err(error@),
    }
}

} // verus!
