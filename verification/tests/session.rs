use html_renderer::script::INJECTION_SCRIPT;
use html_renderer::session::WATCHDOG_SECS;
use html_renderer::{advance, Command, Event, RenderError, RenderState, Step, TimeSpan};

fn closing(outcome: Result<String, RenderError>) -> Option<Step> {
    Some(Step::Continue { state: RenderState::Closing { outcome }, command: Command::Quit })
}

fn text(s: &str) -> String {
    s.to_string()
}

#[test]
fn connecting_completed_navigates_to_the_url() {
    let state = RenderState::Connecting {
        url: text("http://example.com/page?x=1"),
        argument: Ok(text("\"<p>\"")),
        delay: TimeSpan::from_secs(3),
    };
    assert_eq!(
        advance(state, Event::Completed),
        Some(Step::Continue {
            state: RenderState::Navigating {
                argument: Ok(text("\"<p>\"")),
                delay: TimeSpan::from_secs(3),
            },
            command: Command::Navigate { url: text("http://example.com/page?x=1") },
        })
    );
}

#[test]
fn connecting_unreachable_is_backend_unavailable() {
    let state = RenderState::Connecting {
        url: text("http://example.com"),
        argument: Ok(text("\"\"")),
        delay: TimeSpan::from_secs(2),
    };
    assert_eq!(
        advance(state, Event::Unreachable(text("connection refused"))),
        Some(Step::Finished(Err(RenderError::BackendUnavailable(text("connection refused")))))
    );
}

#[test]
fn connecting_failed_is_session_creation_failed() {
    let state = RenderState::Connecting {
        url: text("http://example.com"),
        argument: Ok(text("\"\"")),
        delay: TimeSpan::from_secs(2),
    };
    assert_eq!(
        advance(state, Event::Failed(text("session not created"))),
        Some(Step::Finished(Err(RenderError::SessionCreationFailed(text(
            "session not created"
        )))))
    );
}

#[test]
fn navigating_completed_executes_the_script_with_the_argument() {
    let state = RenderState::Navigating {
        argument: Ok(text("\"<b>hi</b>\"")),
        delay: TimeSpan::from_secs(0),
    };
    assert_eq!(
        advance(state, Event::Completed),
        Some(Step::Continue {
            state: RenderState::Injecting { delay: TimeSpan::from_secs(0) },
            command: Command::ExecuteScript {
                script: text("document.write(arguments[0]);"),
                argument: text("\"<b>hi</b>\""),
            },
        })
    );
    assert_eq!(INJECTION_SCRIPT, "document.write(arguments[0]);");
}

#[test]
fn navigating_failed_closes_with_navigation_failed() {
    let state =
        RenderState::Navigating { argument: Ok(text("\"\"")), delay: TimeSpan::from_secs(2) };
    assert_eq!(
        advance(state, Event::Failed(text("net::ERR_NAME_NOT_RESOLVED"))),
        closing(Err(RenderError::NavigationFailed(text("net::ERR_NAME_NOT_RESOLVED"))))
    );
    let state =
        RenderState::Navigating { argument: Ok(text("\"\"")), delay: TimeSpan::from_secs(2) };
    assert_eq!(
        advance(state, Event::Unreachable(text("broken pipe"))),
        closing(Err(RenderError::NavigationFailed(text("broken pipe"))))
    );
}

#[test]
fn navigating_completed_without_argument_closes_with_serialization_failed() {
    let state = RenderState::Navigating {
        argument: Err(text("cannot encode")),
        delay: TimeSpan::from_secs(2),
    };
    assert_eq!(
        advance(state, Event::Completed),
        closing(Err(RenderError::SerializationFailed(text("cannot encode"))))
    );
}

#[test]
fn injecting_completed_sleeps_for_the_delay() {
    let delay = TimeSpan::new(1, 500_000_000).unwrap();
    assert_eq!(
        advance(RenderState::Injecting { delay }, Event::Completed),
        Some(Step::Continue { state: RenderState::Waiting, command: Command::Sleep { span: delay } })
    );
}

#[test]
fn injecting_failed_closes_with_script_execution_failed() {
    assert_eq!(
        advance(
            RenderState::Injecting { delay: TimeSpan::from_secs(2) },
            Event::Failed(text("javascript error"))
        ),
        closing(Err(RenderError::ScriptExecutionFailed(text("javascript error"))))
    );
    assert_eq!(
        advance(
            RenderState::Injecting { delay: TimeSpan::from_secs(2) },
            Event::Unreachable(text("reset"))
        ),
        closing(Err(RenderError::ScriptExecutionFailed(text("reset"))))
    );
}

#[test]
fn waiting_completed_retrieves_the_source_against_a_15_second_watchdog() {
    assert_eq!(WATCHDOG_SECS, 15);
    assert_eq!(
        advance(RenderState::Waiting, Event::Completed),
        Some(Step::Continue {
            state: RenderState::Extracting,
            command: Command::RetrieveSource { watchdog: TimeSpan::from_secs(15) },
        })
    );
}

#[test]
fn extracting_source_closes_with_the_html() {
    assert_eq!(
        advance(RenderState::Extracting, Event::Source(text("<html></html>"))),
        closing(Ok(text("<html></html>")))
    );
}

#[test]
fn extracting_watchdog_closes_with_render_timeout() {
    assert_eq!(
        advance(RenderState::Extracting, Event::WatchdogFired),
        closing(Err(RenderError::RenderTimeout))
    );
}

#[test]
fn extracting_failure_leaves_the_decision_to_the_watchdog() {
    let expected = Some(Step::Continue {
        state: RenderState::AwaitingWatchdog,
        command: Command::AwaitWatchdog,
    });
    assert_eq!(advance(RenderState::Extracting, Event::Failed(text("no such window"))), expected);
    assert_eq!(advance(RenderState::Extracting, Event::Unreachable(text("reset"))), expected);
    assert_eq!(
        advance(RenderState::AwaitingWatchdog, Event::WatchdogFired),
        closing(Err(RenderError::RenderTimeout))
    );
}

#[test]
fn closing_completed_ends_with_the_outcome() {
    assert_eq!(
        advance(RenderState::Closing { outcome: Ok(text("<p>done</p>")) }, Event::Completed),
        Some(Step::Finished(Ok(text("<p>done</p>"))))
    );
    assert_eq!(
        advance(
            RenderState::Closing { outcome: Err(RenderError::RenderTimeout) },
            Event::Completed
        ),
        Some(Step::Finished(Err(RenderError::RenderTimeout)))
    );
}

#[test]
fn closing_failed_after_html_is_teardown_failed() {
    assert_eq!(
        advance(
            RenderState::Closing { outcome: Ok(text("<p>done</p>")) },
            Event::Failed(text("invalid session id"))
        ),
        Some(Step::Finished(Err(RenderError::SessionTeardownFailed(text(
            "invalid session id"
        )))))
    );
    assert_eq!(
        advance(
            RenderState::Closing { outcome: Ok(text("<p>done</p>")) },
            Event::Unreachable(text("gone"))
        ),
        Some(Step::Finished(Err(RenderError::SessionTeardownFailed(text("gone")))))
    );
}

#[test]
fn closing_failed_after_an_error_keeps_the_error() {
    assert_eq!(
        advance(
            RenderState::Closing { outcome: Err(RenderError::NavigationFailed(text("first"))) },
            Event::Failed(text("second"))
        ),
        Some(Step::Finished(Err(RenderError::NavigationFailed(text("first")))))
    );
    assert_eq!(
        advance(
            RenderState::Closing { outcome: Err(RenderError::RenderTimeout) },
            Event::Unreachable(text("second"))
        ),
        Some(Step::Finished(Err(RenderError::RenderTimeout)))
    );
}

#[test]
fn events_that_a_state_does_not_await_decide_nothing() {
    let connecting = || RenderState::Connecting {
        url: text("http://example.com"),
        argument: Ok(text("\"\"")),
        delay: TimeSpan::from_secs(2),
    };
    assert_eq!(advance(connecting(), Event::Source(text("x"))), None);
    assert_eq!(advance(connecting(), Event::WatchdogFired), None);
    let navigating =
        || RenderState::Navigating { argument: Ok(text("\"\"")), delay: TimeSpan::from_secs(2) };
    assert_eq!(advance(navigating(), Event::Source(text("x"))), None);
    assert_eq!(advance(navigating(), Event::WatchdogFired), None);
    let injecting = || RenderState::Injecting { delay: TimeSpan::from_secs(2) };
    assert_eq!(advance(injecting(), Event::Source(text("x"))), None);
    assert_eq!(advance(injecting(), Event::WatchdogFired), None);
    assert_eq!(advance(RenderState::Waiting, Event::Failed(text("x"))), None);
    assert_eq!(advance(RenderState::Waiting, Event::Unreachable(text("x"))), None);
    assert_eq!(advance(RenderState::Waiting, Event::Source(text("x"))), None);
    assert_eq!(advance(RenderState::Waiting, Event::WatchdogFired), None);
    assert_eq!(advance(RenderState::Extracting, Event::Completed), None);
    assert_eq!(advance(RenderState::AwaitingWatchdog, Event::Completed), None);
    assert_eq!(advance(RenderState::AwaitingWatchdog, Event::Source(text("late"))), None);
    assert_eq!(advance(RenderState::AwaitingWatchdog, Event::Failed(text("x"))), None);
    let closing_state = || RenderState::Closing { outcome: Ok(text("x")) };
    assert_eq!(advance(closing_state(), Event::Source(text("x"))), None);
    assert_eq!(advance(closing_state(), Event::WatchdogFired), None);
}
