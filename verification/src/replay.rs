//! A rendering as seen from outside: the commands issued, and the outcome.

use vstd::prelude::*;
use crate::error::{outcome_view, RenderError, RenderErrorView};
use crate::session::{advance, next, Command, CommandView, Event, EventView, Step, StepView};

verus! {

/// What a rendering shows from outside.
pub struct Run {
    /// The commands issued, in order.
    pub commands: Seq<CommandView>,
    /// What the rendering ended with; `None` while it has not ended.
    pub outcome: Option<Result<Seq<char>, RenderErrorView>>,
}

/// The run that begins with `step` and is fed `events` in order. It stops
/// where the rendering ends, where the events run out, or at an event that
/// the state does not await.
pub open spec fn run(step: StepView, events: Seq<EventView>) -> Run
    decreases events.len(),
{
    match step {
        StepView::Finished(outcome) => Run { commands: Seq::empty(), outcome: Some(outcome) },
        StepView::Continue { state, command } => {
            if events.len() == 0 {
                Run { commands: seq![command], outcome: None }
            } else {
                match next(state, events[0]) {
                    None => Run { commands: seq![command], outcome: None },
                    Some(following) => {
                        let rest = run(following, events.drop_first());
                        Run { commands: seq![command] + rest.commands, outcome: rest.outcome }
                    },
                }
            }
        },
    }
}

/// What a replayed rendering showed.
#[derive(Debug, PartialEq, Eq)]
pub struct Trace {
    /// The commands issued, in order.
    pub commands: Vec<Command>,
    /// What the rendering ended with; `None` if it did not end.
    pub outcome: Option<Result<String, RenderError>>,
}

/// The views of `commands`, in order.
pub open spec fn commands_view(commands: Seq<Command>) -> Seq<CommandView> {
    commands.map_values(|command: Command| command@)
}

/// The views of `events`, in order.
pub open spec fn events_view(events: Seq<Event>) -> Seq<EventView> {
    events.map_values(|event: Event| event@)
}

impl View for Trace {
    type V = Run;

    open spec fn view(&self) -> Run {
        Run {
            commands: commands_view(self.commands@),
            outcome: match self.outcome {
                Some(outcome) => Some(outcome_view(outcome)),
                None => None,
            },
        }
    }
}

/// Replays a rendering against recorded answers: begins with `first`, and
/// answers each command with the next of `events`. The trace holds every
/// command that was issued; the rendering has an outcome if the events took
/// it to its end.
pub fn replay(first: Step, events: Vec<Event>) -> (trace: Trace)
    ensures
        trace@ == run(first@, events_view(events@)),
{
    let ghost whole = run(first@, events_view(events@));
    let mut commands: Vec<Command> = Vec::new();
    let mut step = first;
    let mut rest = events;
    loop
        invariant
            whole == run(first@, events_view(events@)),
            whole.commands == commands_view(commands@) + run(step@, events_view(rest@)).commands,
            whole.outcome == run(step@, events_view(rest@)).outcome,
        decreases rest.len(),
    {
        match step {
            Step::Finished(outcome) => {
                let trace = Trace { commands, outcome: Some(outcome) };
                assert(trace@.commands =~= whole.commands);
                return trace;
            },
            Step::Continue { state, command } => {
                let ghost before = commands@;
                let ghost pending = events_view(rest@);
                commands.push(command);
                assert(commands_view(commands@) =~= commands_view(before) + seq![command@]);
                if rest.len() == 0 {
                    let trace = Trace { commands, outcome: None };
                    assert(trace@.commands =~= whole.commands);
                    return trace;
                }
                let event = rest.remove(0);
                assert(events_view(rest@) =~= pending.drop_first());
                match advance(state, event) {
                    None => {
                        let trace = Trace { commands, outcome: None };
                        assert(trace@.commands =~= whole.commands);
                        return trace;
                    },
                    Some(following) => {
                        assert(whole.commands =~= commands_view(commands@) + run(
                            following@,
                            events_view(rest@),
                        ).commands);
                        step = following;
                    },
                }
            },
        }
    }
}

} // verus!
