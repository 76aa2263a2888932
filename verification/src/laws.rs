//! What holds of every rendering, whatever the backend answers.
//!
//! A rendering is looked at from outside: the commands that it issues, in
//! order, and what it ends with. The laws below are stated over
//! [`crate::replay::run`], which feeds a sequence of events to the machine of
//! [`crate::session`].

use vstd::prelude::*;
use crate::address::{has_host, origin_of_parsed, parsed_url, UrlPartsView, SCHEME_SEPARATOR};
use crate::error::RenderErrorView;
use crate::options::{RenderOptionsView, CHROMEDRIVER_CONNECTION_URL, OUTPUT_DELAY_SECS};
use crate::render::start;
use crate::replay::{run, Run};
use crate::response::{start_of_response, FetchedResponseView};
use crate::script::{json_text, INJECTION_SCRIPT};
use crate::session::{
    next, rendering_capabilities, CommandView, EventView, RenderStateView, StepView,
    WATCHDOG_SECS,
};
use crate::span::TimeSpan;

verus! {

/// The rendering of `options`, fed `events`: the run from the first step
/// that [`crate::render::render_html`] gives.
pub open spec fn rendering(options: RenderOptionsView, events: Seq<EventView>) -> Run {
    run(start(options, parsed_url(options.url), json_text(options.html)), events)
}

/// How many of `commands` close a session.
pub open spec fn quits(commands: Seq<CommandView>) -> nat
    decreases commands.len(),
{
    if commands.len() == 0 {
        0
    } else {
        quits(commands.drop_last()) + if commands.last() is Quit {
            1nat
        } else {
            0nat
        }
    }
}

/// How many of `commands` create a session.
pub open spec fn creations(commands: Seq<CommandView>) -> nat
    decreases commands.len(),
{
    if commands.len() == 0 {
        0
    } else {
        creations(commands.drop_last()) + if commands.last() is CreateSession {
            1nat
        } else {
            0nat
        }
    }
}

/// Whether `event` reports that a command was refused or could not be sent.
pub open spec fn is_failure(event: EventView) -> bool {
    event is Failed || event is Unreachable
}

/// The events of a rendering in which every command is carried out and the
/// page source `html` arrives before the watchdog fires.
pub open spec fn undisturbed(html: Seq<char>) -> Seq<EventView> {
    seq![
        EventView::Completed,
        EventView::Completed,
        EventView::Completed,
        EventView::Completed,
        EventView::Source(html),
        EventView::Completed,
    ]
}

/// The events of a rendering in which the page source never arrives, and
/// closing the session ends with `closed`.
pub open spec fn silent_source(closed: EventView) -> Seq<EventView> {
    seq![
        EventView::Completed,
        EventView::Completed,
        EventView::Completed,
        EventView::Completed,
        EventView::WatchdogFired,
        closed,
    ]
}

/// The commands of a rendering that meets no failure before its session is
/// closed.
pub open spec fn full_commands(
    options: RenderOptionsView,
    argument: Seq<char>,
) -> Seq<CommandView> {
    seq![
        CommandView::CreateSession {
            endpoint: options.endpoint(),
            capabilities: rendering_capabilities(),
        },
        CommandView::Navigate { url: options.url },
        CommandView::ExecuteScript { script: INJECTION_SCRIPT@, argument },
        CommandView::Sleep { span: options.delay() },
        CommandView::RetrieveSource { watchdog: TimeSpan::of(WATCHDOG_SECS, 0) },
        CommandView::Quit,
    ]
}

proof fn lemma_run_unfold(state: RenderStateView, command: CommandView, events: Seq<EventView>)
    requires
        events.len() > 0,
        next(state, events[0]) is Some,
    ensures
        run(StepView::Continue { state, command }, events) == (Run {
            commands: seq![command] + run(
                next(state, events[0])->0,
                events.drop_first(),
            ).commands,
            outcome: run(next(state, events[0])->0, events.drop_first()).outcome,
        }),
{
}

proof fn lemma_quits_push(commands: Seq<CommandView>, command: CommandView)
    ensures
        quits(commands.push(command)) == quits(commands) + if command is Quit {
            1nat
        } else {
            0nat
        },
        creations(commands.push(command)) == creations(commands) + if command is CreateSession {
            1nat
        } else {
            0nat
        },
{
    assert(commands.push(command).drop_last() =~= commands);
}

proof fn lemma_counts_prepend(command: CommandView, commands: Seq<CommandView>)
    ensures
        quits(seq![command] + commands) == quits(commands) + if command is Quit {
            1nat
        } else {
            0nat
        },
        creations(seq![command] + commands) == creations(commands) + if command is CreateSession {
            1nat
        } else {
            0nat
        },
    decreases commands.len(),
{
    if commands.len() == 0 {
        assert(seq![command] + commands =~= Seq::<CommandView>::empty().push(command));
        lemma_quits_push(Seq::empty(), command);
    } else {
        let shorter = commands.drop_last();
        lemma_counts_prepend(command, shorter);
        assert(seq![command] + commands =~= (seq![command] + shorter).push(commands.last()));
        lemma_quits_push(seq![command] + shorter, commands.last());
        assert(commands =~= shorter.push(commands.last()));
        lemma_quits_push(shorter, commands.last());
    }
}

/// Whether `command` is the one that is issued on entering `state`, as far as
/// closing a session goes.
spec fn pending(state: RenderStateView, command: CommandView) -> bool {
    &&& state is Closing <==> command is Quit
    &&& command !is CreateSession
}

proof fn lemma_open_session_is_closed(
    state: RenderStateView,
    command: CommandView,
    events: Seq<EventView>,
)
    requires
        state !is Connecting,
        pending(state, command),
        run(StepView::Continue { state, command }, events).outcome is Some,
    ensures
        quits(run(StepView::Continue { state, command }, events).commands) == 1,
        creations(run(StepView::Continue { state, command }, events).commands) == 0,
        run(StepView::Continue { state, command }, events).commands.last() is Quit,
    decreases events.len(),
{
    let whole = run(StepView::Continue { state, command }, events);
    if events.len() > 0 && next(state, events[0]) is Some {
        let following = next(state, events[0])->0;
        let rest = run(following, events.drop_first());
        lemma_run_unfold(state, command, events);
        lemma_counts_prepend(command, rest.commands);
        match following {
            StepView::Finished(_) => {
                assert(rest.commands =~= Seq::empty());
                assert(whole.commands =~= seq![command]);
            },
            StepView::Continue { state: state2, command: command2 } => {
                lemma_open_session_is_closed(state2, command2, events.drop_first());
                assert(rest.commands.len() > 0);
                assert(whole.commands.last() == rest.commands.last());
            },
        }
    }
}

/// A session that was created is closed, once, and nothing follows: in every
/// rendering that has ended, either no session came to be and the command to
/// create one stands alone, or exactly one session was created and exactly
/// one command closes a session, which is the last command of all. Without a
/// host in the URL there is no command at all.
pub proof fn law_session_closed_exactly_once(
    options: RenderOptionsView,
    parsed: Option<UrlPartsView>,
    encoded: Result<Seq<char>, Seq<char>>,
    events: Seq<EventView>,
)
    requires
        run(start(options, parsed, encoded), events).outcome is Some,
    ensures
        ({
            let whole = run(start(options, parsed, encoded), events);
            if !has_host(parsed) {
                whole.commands.len() == 0
            } else if events[0] is Completed {
                &&& creations(whole.commands) == 1
                &&& quits(whole.commands) == 1
                &&& whole.commands.first() is CreateSession
                &&& whole.commands.last() is Quit
            } else {
                &&& whole.commands.len() == 1
                &&& whole.commands.first() is CreateSession
                &&& whole.outcome->0 is Err
            }
        }),
{
    let first = start(options, parsed, encoded);
    let whole = run(first, events);
    if has_host(parsed) {
        let state = first->state;
        let command = first->command;
        assert(events.len() > 0 && next(state, events[0]) is Some);
        let following = next(state, events[0])->0;
        let rest = run(following, events.drop_first());
        lemma_run_unfold(state, command, events);
        lemma_counts_prepend(command, rest.commands);
        match following {
            StepView::Finished(_) => {
                assert(rest.commands =~= Seq::empty());
                assert(whole.commands =~= seq![command]);
            },
            StepView::Continue { state: state2, command: command2 } => {
                lemma_open_session_is_closed(state2, command2, events.drop_first());
                assert(rest.commands.len() > 0);
                assert(whole.commands.last() == rest.commands.last());
            },
        }
    }
}

/// A URL that is none, or has no host, ends the rendering with
/// [`RenderErrorView::InvalidUrl`] before the backend is given any command,
/// whatever events are offered: both where the URL comes with the options
/// and where it is that of a response.
pub proof fn law_hostless_url_reaches_no_backend(
    options: RenderOptionsView,
    response: FetchedResponseView,
    chromedriver_url: Option<Seq<char>>,
    output_delay: Option<TimeSpan>,
    events: Seq<EventView>,
)
    ensures
        !has_host(parsed_url(options.url)) ==> rendering(options, events) == (Run {
            commands: Seq::empty(),
            outcome: Some(Err(RenderErrorView::InvalidUrl)),
        }),
        !has_host(parsed_url(response.url)) ==> run(
            start_of_response(response, chromedriver_url, output_delay),
            events,
        ) == (Run { commands: Seq::empty(), outcome: Some(Err(RenderErrorView::InvalidUrl)) }),
{
}

/// Where every command is carried out and the page source arrives before
/// the watchdog fires, the rendering ends with that very page source: after
/// the six commands of a full rendering, none of which waits for the
/// watchdog. This holds for every output delay, none at all included.
pub proof fn law_undisturbed_rendering_returns_source(
    options: RenderOptionsView,
    parsed: Option<UrlPartsView>,
    argument: Seq<char>,
    html: Seq<char>,
)
    requires
        has_host(parsed),
    ensures
        run(start(options, parsed, Ok(argument)), undisturbed(html)) == (Run {
            commands: full_commands(options, argument),
            outcome: Some(Ok(html)),
        }),
{
    let events = undisturbed(html);
    let whole = run(start(options, parsed, Ok(argument)), events);
    reveal_with_fuel(run, 8);
    let e1 = events.drop_first();
    let e2 = e1.drop_first();
    let e3 = e2.drop_first();
    let e4 = e3.drop_first();
    let e5 = e4.drop_first();
    let e6 = e5.drop_first();
    assert(e1[0] == EventView::Completed && e2[0] == EventView::Completed && e3[0]
        == EventView::Completed);
    assert(e4[0] == EventView::Source(html) && e5[0] == EventView::Completed && e6.len() == 0);
    assert(whole.commands =~= full_commands(options, argument));
}

/// Where the page source never arrives, the rendering ends with
/// [`RenderErrorView::RenderTimeout`], and not before the session has been
/// told to close: the watchdog was set to [`WATCHDOG_SECS`] seconds when the
/// retrieval began, and the command that follows its firing closes the
/// session. Whatever comes of closing, the timeout is what is reported.
pub proof fn law_silent_source_times_out(
    options: RenderOptionsView,
    parsed: Option<UrlPartsView>,
    argument: Seq<char>,
    closed: EventView,
)
    requires
        has_host(parsed),
        closed is Completed || is_failure(closed),
    ensures
        run(start(options, parsed, Ok(argument)), silent_source(closed)) == (Run {
            commands: full_commands(options, argument),
            outcome: Some(Err(RenderErrorView::RenderTimeout)),
        }),
{
    let events = silent_source(closed);
    let whole = run(start(options, parsed, Ok(argument)), events);
    reveal_with_fuel(run, 8);
    let e1 = events.drop_first();
    let e2 = e1.drop_first();
    let e3 = e2.drop_first();
    let e4 = e3.drop_first();
    let e5 = e4.drop_first();
    let e6 = e5.drop_first();
    assert(e1[0] == EventView::Completed && e2[0] == EventView::Completed && e3[0]
        == EventView::Completed);
    assert(e4[0] == EventView::WatchdogFired && e5[0] == closed && e6.len() == 0);
    assert(whole.commands =~= full_commands(options, argument));
}

/// A retrieval of the page source that fails does not end the race: only
/// the watchdog does, and the rendering then ends with
/// [`RenderErrorView::RenderTimeout`] once the session has been told to close.
pub proof fn law_failed_source_awaits_watchdog(failure: EventView, closed: EventView)
    requires
        is_failure(failure),
        closed is Completed || is_failure(closed),
    ensures
        run(
            StepView::Continue {
                state: RenderStateView::Extracting,
                command: CommandView::RetrieveSource { watchdog: TimeSpan::of(WATCHDOG_SECS, 0) },
            },
            seq![failure, EventView::WatchdogFired, closed],
        ) == (Run {
            commands: seq![
                CommandView::RetrieveSource { watchdog: TimeSpan::of(WATCHDOG_SECS, 0) },
                CommandView::AwaitWatchdog,
                CommandView::Quit,
            ],
            outcome: Some(Err(RenderErrorView::RenderTimeout)),
        }),
{
    let events = seq![failure, EventView::WatchdogFired, closed];
    let first = StepView::Continue {
        state: RenderStateView::Extracting,
        command: CommandView::RetrieveSource { watchdog: TimeSpan::of(WATCHDOG_SECS, 0) },
    };
    reveal_with_fuel(run, 5);
    let e1 = events.drop_first();
    let e2 = e1.drop_first();
    let e3 = e2.drop_first();
    assert(e1[0] == EventView::WatchdogFired && e2[0] == closed && e3.len() == 0);
    assert(run(first, events).commands =~= seq![
        CommandView::RetrieveSource { watchdog: TimeSpan::of(WATCHDOG_SECS, 0) },
        CommandView::AwaitWatchdog,
        CommandView::Quit,
    ]);
}

/// Rendering keeps nothing between calls: two renderings of options that
/// read the same, fed the same events, issue the same commands and end with
/// the same outcome.
pub proof fn law_rendering_is_repeatable(
    first: RenderOptionsView,
    second: RenderOptionsView,
    events: Seq<EventView>,
)
    requires
        first.html == second.html,
        first.url == second.url,
        first.chromedriver_url == second.chromedriver_url,
        first.output_delay == second.output_delay,
    ensures
        rendering(first, events) == rendering(second, events),
{
}

/// Options that name no backend address and no output delay are rendered
/// at [`CHROMEDRIVER_CONNECTION_URL`] and with [`OUTPUT_DELAY_SECS`] seconds
/// of delay: the first command creates the session at that address, and the
/// wait that follows the script, where the rendering comes that far, lasts
/// that long.
pub proof fn law_defaults_apply(
    options: RenderOptionsView,
    parsed: Option<UrlPartsView>,
    argument: Seq<char>,
    html: Seq<char>,
)
    requires
        has_host(parsed),
    ensures
        options.chromedriver_url is None ==> run(
            start(options, parsed, Ok(argument)),
            undisturbed(html),
        ).commands[0] == (CommandView::CreateSession {
            endpoint: CHROMEDRIVER_CONNECTION_URL@,
            capabilities: rendering_capabilities(),
        }),
        options.output_delay is None ==> run(
            start(options, parsed, Ok(argument)),
            undisturbed(html),
        ).commands[3] == (CommandView::Sleep { span: TimeSpan::of(OUTPUT_DELAY_SECS, 0) }),
{
    law_undisturbed_rendering_returns_source(options, parsed, argument, html);
}

/// The origin of a URL with a host is its scheme, `://` and its host, and so
/// the same for all URLs that share the two, whatever their paths, queries
/// and fragments.
pub proof fn law_origin_keeps_scheme_and_host(first: UrlPartsView, second: UrlPartsView)
    requires
        first.host is Some,
        first.scheme == second.scheme,
        first.host == second.host,
    ensures
        origin_of_parsed(Some(first)) == Ok::<Seq<char>, RenderErrorView>(
            first.scheme + SCHEME_SEPARATOR@ + first.host->0,
        ),
        origin_of_parsed(Some(first)) == origin_of_parsed(Some(second)),
{
}

} // verus!
