use html_renderer::{
    advance, page_of, Capabilities, Command, Event, FetchedResponse, HTMLRendererExt, Page,
    PageLoadStrategy, RenderError, RenderState, Step, TimeSpan, UrlParts,
};

fn fetched(url: &str, body: Result<&str, &str>) -> FetchedResponse {
    FetchedResponse {
        url: url.to_string(),
        body: body.map(str::to_string).map_err(str::to_string),
    }
}

#[test]
fn a_response_is_rendered_as_a_page_of_its_origin() {
    let response = fetched("https://example.com/articles/1?ref=home#top", Ok("<p>article</p>"));
    let step = response.render(None, None);
    assert_eq!(
        step,
        Step::Continue {
            state: RenderState::Connecting {
                url: "https://example.com".to_string(),
                argument: Ok("\"<p>article</p>\"".to_string()),
                delay: TimeSpan::from_secs(2),
            },
            command: Command::CreateSession {
                endpoint: "http://127.0.0.1:4444".to_string(),
                capabilities: Capabilities {
                    headless: true,
                    page_load_strategy: PageLoadStrategy::NoWait,
                },
            },
        }
    );
    match step {
        Step::Continue { state, .. } => assert_eq!(
            advance(state, Event::Completed),
            Some(Step::Continue {
                state: RenderState::Navigating {
                    argument: Ok("\"<p>article</p>\"".to_string()),
                    delay: TimeSpan::from_secs(2),
                },
                command: Command::Navigate { url: "https://example.com".to_string() },
            })
        ),
        Step::Finished(outcome) => panic!("the rendering ended with {:?}", outcome),
    }
}

#[test]
fn a_response_passes_the_backend_address_and_the_delay_on() {
    let response = fetched("http://example.com/", Ok(""));
    let step = response.render(Some("http://localhost:9515"), Some(TimeSpan::from_secs(7)));
    assert_eq!(
        step,
        Step::Continue {
            state: RenderState::Connecting {
                url: "http://example.com".to_string(),
                argument: Ok("\"\"".to_string()),
                delay: TimeSpan::from_secs(7),
            },
            command: Command::CreateSession {
                endpoint: "http://localhost:9515".to_string(),
                capabilities: Capabilities {
                    headless: true,
                    page_load_strategy: PageLoadStrategy::NoWait,
                },
            },
        }
    );
}

#[test]
fn a_response_from_a_url_without_host_is_not_rendered() {
    let response = fetched("data:text/html,<p>inline</p>", Ok("<p>inline</p>"));
    assert_eq!(response.render(None, None), Step::Finished(Err(RenderError::InvalidUrl)));
}

#[test]
fn a_response_whose_body_cannot_be_read_is_not_rendered() {
    let response = fetched("https://example.com/", Err("error decoding response body"));
    assert_eq!(
        response.render(None, None),
        Step::Finished(Err(RenderError::BodyReadFailed(
            "error decoding response body".to_string()
        )))
    );
}

#[test]
fn the_url_of_a_response_is_looked_at_before_its_body() {
    let response = fetched("mailto:someone@example.com", Err("error decoding response body"));
    assert_eq!(response.render(None, None), Step::Finished(Err(RenderError::InvalidUrl)));
}

#[test]
fn a_page_is_the_origin_with_the_body() {
    let parts = UrlParts { scheme: "https".to_string(), host: Some("example.com".to_string()) };
    assert_eq!(
        page_of(Some(parts), Ok("<p>body</p>".to_string())),
        Ok(Page { origin: "https://example.com".to_string(), html: "<p>body</p>".to_string() })
    );
}

#[test]
fn no_page_without_host_or_body() {
    let with_host =
        || UrlParts { scheme: "https".to_string(), host: Some("example.com".to_string()) };
    let without_host = || UrlParts { scheme: "data".to_string(), host: None };
    assert_eq!(
        page_of(Some(with_host()), Err("timed out".to_string())),
        Err(RenderError::BodyReadFailed("timed out".to_string()))
    );
    assert_eq!(page_of(Some(without_host()), Ok("x".to_string())), Err(RenderError::InvalidUrl));
    assert_eq!(
        page_of(Some(without_host()), Err("timed out".to_string())),
        Err(RenderError::InvalidUrl)
    );
    assert_eq!(page_of(None, Ok("x".to_string())), Err(RenderError::InvalidUrl));
    assert_eq!(page_of(None, Err("timed out".to_string())), Err(RenderError::InvalidUrl));
}
