//! `scoring`: derives the session score from derived bus events. The session's
//! score is the maximum over its signals; raises go back onto the bus.

use vstd::prelude::*;

use crate::app::event::AgentBusEvent;
use crate::domain::score::{is_interpreter, score_signal, ScoreSignal, ScoreWeights};
use crate::protocol::config::ScoringConfig;

verus! {

/// Scoring plugin.
#[derive(Debug)]
pub struct ScoringPlugin {
    weights: ScoreWeights,
    /// Session maximum so far.
    max_score: u32,
}

/// The score of a bus event; 0 where it is not score-worthy.
pub open spec fn event_score(weights: ScoreWeights, event: AgentBusEvent) -> u32 {
    match event {
        AgentBusEvent::ProcessEnteredScope { pid, name } => if is_interpreter(name@) {
            weights.cli_started
        } else {
            0
        },
        AgentBusEvent::DropObserved { path, pid } => weights.drop_observed,
        _ => 0,
    }
}

/// The larger of two scores.
pub open spec fn larger(left: u32, right: u32) -> u32 {
    if left > right {
        left
    } else {
        right
    }
}

/// The score of a session after these events.
pub open spec fn session_score(weights: ScoreWeights, events: Seq<AgentBusEvent>) -> u32
    decreases events.len(),
{
    if events.len() == 0 {
        0
    } else {
        larger(session_score(weights, events.drop_last()), event_score(weights, events.last()))
    }
}

/// What one event makes of the session's score, and the raise that it publishes.
pub open spec fn scores(
    weights: ScoreWeights,
    before: u32,
    event: AgentBusEvent,
    after: u32,
    raised: Option<AgentBusEvent>,
) -> bool {
    &&& after == larger(before, event_score(weights, event))
    &&& raised == if event_score(weights, event) > before {
        Some(AgentBusEvent::SessionScoreRaised { score: event_score(weights, event) })
    } else {
        None
    }
}

impl ScoringPlugin {
    /// The weights.
    pub closed spec fn weights(&self) -> ScoreWeights {
        self.weights
    }

    /// The maximum so far.
    pub closed spec fn score(&self) -> u32 {
        self.max_score
    }

    /// Assemble the plugin over the configured weights.
    pub fn new(config: &ScoringConfig) -> (plugin: Self)
        ensures
            plugin.weights() == (ScoreWeights {
                cli_started: config.cli_started,
                drop_observed: config.drop_observed,
            }),
            plugin.score() == 0,
    {
        ScoringPlugin {
            weights: ScoreWeights {
                cli_started: config.cli_started,
                drop_observed: config.drop_observed,
            },
            max_score: 0,
        }
    }

    /// Session maximum score so far.
    pub fn max_score(&self) -> (score: u32)
        ensures
            score == self.score(),
    {
        self.max_score
    }

    /// Take in a bus event; returns the raise to publish, if there is one.
    pub fn on_bus(&mut self, event: &AgentBusEvent) -> (raised: Option<AgentBusEvent>)
        ensures
            final(self).weights() == old(self).weights(),
            scores(
                old(self).weights(),
                old(self).score(),
                *event,
                final(self).score(),
                raised,
            ),
    {
        let candidate = match event {
            AgentBusEvent::ProcessEnteredScope { pid, name } => score_signal(
                &self.weights,
                &ScoreSignal::CliInterpreter(name.as_str()),
            ),
            AgentBusEvent::DropObserved { path, pid } => score_signal(
                &self.weights,
                &ScoreSignal::DropObserved,
            ),
            _ => None,
        };
        match candidate {
            Some(score) => if score > self.max_score {
                self.max_score = score;
                Some(AgentBusEvent::SessionScoreRaised { score })
            } else {
                None
            },
            None => None,
        }
    }
}

/// The session's score is the largest score of its events: no event scores more,
/// and unless it is 0 some event scores exactly that.
pub proof fn law_session_score_is_the_maximum(weights: ScoreWeights, events: Seq<AgentBusEvent>)
    ensures
        forall|i: int|
            0 <= i < events.len() ==> event_score(weights, #[trigger] events[i]) <= session_score(
                weights,
                events,
            ),
        session_score(weights, events) > 0 ==> exists|i: int|
            0 <= i < events.len() && event_score(weights, #[trigger] events[i]) == session_score(
                weights,
                events,
            ),
    decreases events.len(),
{
    if events.len() > 0 {
        let front = events.drop_last();
        law_session_score_is_the_maximum(weights, front);
        assert forall|i: int| 0 <= i < events.len() implies event_score(weights, #[trigger] events[i])
            <= session_score(weights, events) by {
            if i < front.len() {
                assert(front[i] == events[i]);
            }
        }
        if session_score(weights, events) > 0 {
            if session_score(weights, front) > event_score(weights, events.last()) {
                let i = choose|i: int|
                    0 <= i < front.len() && event_score(weights, #[trigger] front[i])
                        == session_score(weights, front);
                assert(events[i] == front[i]);
            } else {
                assert(events[events.len() - 1] == events.last());
            }
        }
    }
}

/// One more event never lowers the score.
pub proof fn law_score_never_falls(
    weights: ScoreWeights,
    events: Seq<AgentBusEvent>,
    event: AgentBusEvent,
)
    ensures
        session_score(weights, events) <= session_score(weights, events.push(event)),
{
    assert(events.push(event).drop_last() =~= events);
}

} // verus!
