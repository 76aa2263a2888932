//! One browser session, from its creation to its end, as a state machine.
//!
//! A rendering is a strict sequence: create the session, navigate, write the
//! HTML into the page, wait, retrieve the page source against a watchdog, close
//! the session. The machine decides; whoever drives it performs each
//! [`Command`] against the browser backend and reports what came of it as an
//! [`Event`].

use vstd::prelude::*;
use crate::error::{outcome_view, RenderError, RenderErrorView};
use crate::script::{argument_view, INJECTION_SCRIPT};
use crate::span::TimeSpan;

verus! {

/// Seconds that the retrieval of the page source is given.
pub const WATCHDOG_SECS: u64 = 15;

/// How long a command waits for the browser's own page load.
#[derive(Clone, Copy, Debug, PartialEq, Eq, Structural)]
pub enum PageLoadStrategy {
    /// Until the page and what it refers to are loaded.
    Normal,
    /// Until the document is parsed.
    Eager,
    /// Not at all.
    NoWait,
}

/// What a session is asked to be like when it is created.
#[derive(Clone, Copy, Debug, PartialEq, Eq, Structural)]
pub struct Capabilities {
    /// The browser runs without a window.
    pub headless: bool,
    pub page_load_strategy: PageLoadStrategy,
}

/// The capabilities of every rendering session: headless, and no command
/// waits for the page load, because the HTML must be written into the page
/// before the load of the navigation completes.
pub open spec fn rendering_capabilities() -> Capabilities {
    Capabilities { headless: true, page_load_strategy: PageLoadStrategy::NoWait }
}

/// What the browser backend is to do next.
#[derive(Debug, PartialEq, Eq)]
pub enum Command {
    /// Create a session at the backend that listens at `endpoint`.
    CreateSession { endpoint: String, capabilities: Capabilities },
    /// Navigate the session to `url`.
    Navigate { url: String },
    /// Run `script` in the page with one argument, given as JSON text.
    ExecuteScript { script: String, argument: String },
    /// Let `span` pass.
    Sleep { span: TimeSpan },
    /// Ask for the page source, and start a watchdog that fires after
    /// `watchdog` unless the source has arrived by then.
    RetrieveSource { watchdog: TimeSpan },
    /// Go on waiting for the watchdog already started.
    AwaitWatchdog,
    /// Close the session.
    Quit,
}

/// A [`Command`] with its texts as sequences of characters.
pub enum CommandView {
    CreateSession { endpoint: Seq<char>, capabilities: Capabilities },
    Navigate { url: Seq<char> },
    ExecuteScript { script: Seq<char>, argument: Seq<char> },
    Sleep { span: TimeSpan },
    RetrieveSource { watchdog: TimeSpan },
    AwaitWatchdog,
    Quit,
}

impl View for Command {
    type V = CommandView;

    open spec fn view(&self) -> CommandView {
        match *self {
            Command::CreateSession { endpoint, capabilities } => CommandView::CreateSession {
                endpoint: endpoint@,
                capabilities,
            },
            Command::Navigate { url } => CommandView::Navigate { url: url@ },
            Command::ExecuteScript { script, argument } => CommandView::ExecuteScript {
                script: script@,
                argument: argument@,
            },
            Command::Sleep { span } => CommandView::Sleep { span },
            Command::RetrieveSource { watchdog } => CommandView::RetrieveSource { watchdog },
            Command::AwaitWatchdog => CommandView::AwaitWatchdog,
            Command::Quit => CommandView::Quit,
        }
    }
}

impl Clone for Command {
    fn clone(&self) -> (copy: Command)
        ensures
            copy@ == self@,
    {
        match self {
            Command::CreateSession { endpoint, capabilities } => Command::CreateSession {
                endpoint: endpoint.clone(),
                capabilities: *capabilities,
            },
            Command::Navigate { url } => Command::Navigate { url: url.clone() },
            Command::ExecuteScript { script, argument } => Command::ExecuteScript {
                script: script.clone(),
                argument: argument.clone(),
            },
            Command::Sleep { span } => Command::Sleep { span: *span },
            Command::RetrieveSource { watchdog } => Command::RetrieveSource { watchdog: *watchdog },
            Command::AwaitWatchdog => Command::AwaitWatchdog,
            Command::Quit => Command::Quit,
        }
    }
}

/// What came of the last command.
#[derive(Debug, PartialEq, Eq)]
pub enum Event {
    /// The command was carried out.
    Completed,
    /// The page source arrived.
    Source(String),
    /// The backend answered the command with an error.
    Failed(String),
    /// The backend could not be reached.
    Unreachable(String),
    /// The watchdog fired.
    WatchdogFired,
}

/// An [`Event`] with its texts as sequences of characters.
pub enum EventView {
    Completed,
    Source(Seq<char>),
    Failed(Seq<char>),
    Unreachable(Seq<char>),
    WatchdogFired,
}

impl View for Event {
    type V = EventView;

    open spec fn view(&self) -> EventView {
        match *self {
            Event::Completed => EventView::Completed,
            Event::Source(html) => EventView::Source(html@),
            Event::Failed(reason) => EventView::Failed(reason@),
            Event::Unreachable(reason) => EventView::Unreachable(reason@),
            Event::WatchdogFired => EventView::WatchdogFired,
        }
    }
}

impl Clone for Event {
    fn clone(&self) -> (copy: Event)
        ensures
            copy@ == self@,
    {
        match self {
            Event::Completed => Event::Completed,
            Event::Source(html) => Event::Source(html.clone()),
            Event::Failed(reason) => Event::Failed(reason.clone()),
            Event::Unreachable(reason) => Event::Unreachable(reason.clone()),
            Event::WatchdogFired => Event::WatchdogFired,
        }
    }
}

/// Where a rendering stands. Each state awaits what comes of the one command
/// that was issued on entering it.
#[derive(Debug, PartialEq, Eq)]
pub enum RenderState {
    /// The session is being created. No session exists yet.
    Connecting {
        url: String,
        /// The HTML as JSON text, or why it could not be encoded, which is
        /// reported when the script is due.
        argument: Result<String, String>,
        delay: TimeSpan,
    },
    /// The session is being navigated to the URL.
    Navigating { argument: Result<String, String>, delay: TimeSpan },
    /// The script is writing the HTML into the page.
    Injecting { delay: TimeSpan },
    /// The output delay is passing.
    Waiting,
    /// The page source and the watchdog race.
    Extracting,
    /// The retrieval of the page source failed; the watchdog is still to fire.
    AwaitingWatchdog,
    /// The session is being closed; `outcome` is what the rendering came to.
    Closing { outcome: Result<String, RenderError> },
}

/// A [`RenderState`] with its texts as sequences of characters.
pub enum RenderStateView {
    Connecting { url: Seq<char>, argument: Result<Seq<char>, Seq<char>>, delay: TimeSpan },
    Navigating { argument: Result<Seq<char>, Seq<char>>, delay: TimeSpan },
    Injecting { delay: TimeSpan },
    Waiting,
    Extracting,
    AwaitingWatchdog,
    Closing { outcome: Result<Seq<char>, RenderErrorView> },
}

impl View for RenderState {
    type V = RenderStateView;

    open spec fn view(&self) -> RenderStateView {
        match *self {
            RenderState::Connecting { url, argument, delay } => RenderStateView::Connecting {
                url: url@,
                argument: argument_view(argument),
                delay,
            },
            RenderState::Navigating { argument, delay } => RenderStateView::Navigating {
                argument: argument_view(argument),
                delay,
            },
            RenderState::Injecting { delay } => RenderStateView::Injecting { delay },
            RenderState::Waiting => RenderStateView::Waiting,
            RenderState::Extracting => RenderStateView::Extracting,
            RenderState::AwaitingWatchdog => RenderStateView::AwaitingWatchdog,
            RenderState::Closing { outcome } => RenderStateView::Closing {
                outcome: outcome_view(outcome),
            },
        }
    }
}

/// What a decision of the machine comes to.
#[derive(Debug, PartialEq, Eq)]
pub enum Step {
    /// The backend is to carry out `command`; what comes of it is handed to
    /// [`advance`] together with `state`.
    Continue { state: RenderState, command: Command },
    /// The rendering is over: with the rendered HTML, or with the error of the
    /// phase that failed.
    Finished(Result<String, RenderError>),
}

/// A [`Step`] with its texts as sequences of characters.
pub enum StepView {
    Continue { state: RenderStateView, command: CommandView },
    Finished(Result<Seq<char>, RenderErrorView>),
}

impl View for Step {
    type V = StepView;

    open spec fn view(&self) -> StepView {
        match *self {
            Step::Continue { state, command } => StepView::Continue {
                state: state@,
                command: command@,
            },
            Step::Finished(outcome) => StepView::Finished(outcome_view(outcome)),
        }
    }
}

/// The view of a step, where there is one.
pub open spec fn step_option_view(step: Option<Step>) -> Option<StepView> {
    match step {
        Some(step) => Some(step@),
        None => None,
    }
}

/// The step that closes the session, remembering what the rendering came to.
pub open spec fn closing(outcome: Result<Seq<char>, RenderErrorView>) -> StepView {
    StepView::Continue { state: RenderStateView::Closing { outcome }, command: CommandView::Quit }
}

/// What a rendering ends with once its session is closed: an error found
/// earlier stands, whatever came of closing; rendered HTML is handed out only
/// if closing succeeded.
pub open spec fn after_closing(
    outcome: Result<Seq<char>, RenderErrorView>,
    closed: Result<(), Seq<char>>,
) -> Result<Seq<char>, RenderErrorView> {
    match (outcome, closed) {
        (Ok(_), Err(reason)) => Err(RenderErrorView::SessionTeardownFailed(reason)),
        _ => outcome,
    }
}

/// The transitions of the machine: the step that follows when `event` comes
/// in `state`, or `None` where the state awaits no such event.
///
/// - Before a session exists, a failure ends the rendering at once.
/// - Once a session exists, every way out leads through closing it.
/// - A failed retrieval of the page source does not end the race: the
///   watchdog decides.
pub open spec fn next(state: RenderStateView, event: EventView) -> Option<StepView> {
    match state {
        RenderStateView::Connecting { url, argument, delay } => match event {
            EventView::Completed => Some(
                StepView::Continue {
                    state: RenderStateView::Navigating { argument, delay },
                    command: CommandView::Navigate { url },
                },
            ),
            EventView::Unreachable(reason) => Some(
                StepView::Finished(Err(RenderErrorView::BackendUnavailable(reason))),
            ),
            EventView::Failed(reason) => Some(
                StepView::Finished(Err(RenderErrorView::SessionCreationFailed(reason))),
            ),
            _ => None,
        },
        RenderStateView::Navigating { argument, delay } => match event {
            EventView::Completed => match argument {
                Ok(text) => Some(
                    StepView::Continue {
                        state: RenderStateView::Injecting { delay },
                        command: CommandView::ExecuteScript {
                            script: INJECTION_SCRIPT@,
                            argument: text,
                        },
                    },
                ),
                Err(reason) => Some(closing(Err(RenderErrorView::SerializationFailed(reason)))),
            },
            EventView::Failed(reason) | EventView::Unreachable(reason) => Some(
                closing(Err(RenderErrorView::NavigationFailed(reason))),
            ),
            _ => None,
        },
        RenderStateView::Injecting { delay } => match event {
            EventView::Completed => Some(
                StepView::Continue {
                    state: RenderStateView::Waiting,
                    command: CommandView::Sleep { span: delay },
                },
            ),
            EventView::Failed(reason) | EventView::Unreachable(reason) => Some(
                closing(Err(RenderErrorView::ScriptExecutionFailed(reason))),
            ),
            _ => None,
        },
        RenderStateView::Waiting => match event {
            EventView::Completed => Some(
                StepView::Continue {
                    state: RenderStateView::Extracting,
                    command: CommandView::RetrieveSource {
                        watchdog: TimeSpan::of(WATCHDOG_SECS, 0),
                    },
                },
            ),
            _ => None,
        },
        RenderStateView::Extracting => match event {
            EventView::Source(html) => Some(closing(Ok(html))),
            EventView::WatchdogFired => Some(closing(Err(RenderErrorView::RenderTimeout))),
            EventView::Failed(_) | EventView::Unreachable(_) => Some(
                StepView::Continue {
                    state: RenderStateView::AwaitingWatchdog,
                    command: CommandView::AwaitWatchdog,
                },
            ),
            _ => None,
        },
        RenderStateView::AwaitingWatchdog => match event {
            EventView::WatchdogFired => Some(closing(Err(RenderErrorView::RenderTimeout))),
            _ => None,
        },
        RenderStateView::Closing { outcome } => match event {
            EventView::Completed => Some(StepView::Finished(after_closing(outcome, Ok(())))),
            EventView::Failed(reason) | EventView::Unreachable(reason) => Some(
                StepView::Finished(after_closing(outcome, Err(reason))),
            ),
            _ => None,
        },
    }
}

/// The step that closes the session with `outcome` remembered.
fn close_with(outcome: Result<String, RenderError>) -> (step: Step)
    ensures
        step@ == closing(outcome_view(outcome)),
{
    Step::Continue { state: RenderState::Closing { outcome }, command: Command::Quit }
}

/// Decides what follows when `event` comes in `state`: the next command with
/// the state that awaits its result, or the end of the rendering. `None` says
/// that the state awaits no such event; nothing has been decided then.
pub fn advance(state: RenderState, event: Event) -> (step: Option<Step>)
    ensures
        step_option_view(step) == next(state@, event@),
{
    match state {
        RenderState::Connecting { url, argument, delay } => match event {
            Event::Completed => Some(
                Step::Continue {
                    state: RenderState::Navigating { argument, delay },
                    command: Command::Navigate { url },
                },
            ),
            Event::Unreachable(reason) => Some(
                Step::Finished(Err(RenderError::BackendUnavailable(reason))),
            ),
            Event::Failed(reason) => Some(
                Step::Finished(Err(RenderError::SessionCreationFailed(reason))),
            ),
            _ => None,
        },
        RenderState::Navigating { argument, delay } => match event {
            Event::Completed => match argument {
                Ok(text) => Some(
                    Step::Continue {
                        state: RenderState::Injecting { delay },
                        command: Command::ExecuteScript {
                            script: INJECTION_SCRIPT.to_owned(),
                            argument: text,
                        },
                    },
                ),
                Err(reason) => Some(close_with(Err(RenderError::SerializationFailed(reason)))),
            },
            Event::Failed(reason) | Event::Unreachable(reason) => Some(
                close_with(Err(RenderError::NavigationFailed(reason))),
            ),
            _ => None,
        },
        RenderState::Injecting { delay } => match event {
            Event::Completed => Some(
                Step::Continue { state: RenderState::Waiting, command: Command::Sleep { span: delay } },
            ),
            Event::Failed(reason) | Event::Unreachable(reason) => Some(
                close_with(Err(RenderError::ScriptExecutionFailed(reason))),
            ),
            _ => None,
        },
        RenderState::Waiting => match event {
            Event::Completed => Some(
                Step::Continue {
                    state: RenderState::Extracting,
                    command: Command::RetrieveSource {
                        watchdog: TimeSpan::from_secs(WATCHDOG_SECS),
                    },
                },
            ),
            _ => None,
        },
        RenderState::Extracting => match event {
            Event::Source(html) => Some(close_with(Ok(html))),
            Event::WatchdogFired => Some(close_with(Err(RenderError::RenderTimeout))),
            Event::Failed(_) | Event::Unreachable(_) => Some(
                Step::Continue {
                    state: RenderState::AwaitingWatchdog,
                    command: Command::AwaitWatchdog,
                },
            ),
            _ => None,
        },
        RenderState::AwaitingWatchdog => match event {
            Event::WatchdogFired => Some(close_with(Err(RenderError::RenderTimeout))),
            _ => None,
        },
        RenderState::Closing { outcome } => match event {
            Event::Completed => Some(Step::Finished(outcome)),
            Event::Failed(reason) | Event::Unreachable(reason) => match outcome {
                Ok(_) => Some(Step::Finished(Err(RenderError::SessionTeardownFailed(reason)))),
                Err(error) => Some(Step::Finished(Err(error))),
            },
            _ => None,
        },
    }
}

} // verus!
