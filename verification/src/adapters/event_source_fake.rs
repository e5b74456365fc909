//! Scripted event source: the feed of simulations.

use vstd::prelude::*;

use crate::app::event::{same_event, SandboxEvent};

verus! {

/// Scripted source; one instance can feed many boots.
#[derive(Debug)]
pub struct FakeEventSource {
    /// The events, in order.
    pub script: Vec<SandboxEvent>,
}

impl FakeEventSource {
    /// Source replaying `script` in order.
    pub fn new(script: Vec<SandboxEvent>) -> (source: Self)
        ensures
            source.script == script,
    {
        FakeEventSource { script }
    }

    /// The events of one boot: the script is kept.
    pub fn replay(&self) -> (events: Vec<SandboxEvent>)
        ensures
            events@.len() == self.script@.len(),
            forall|i: int|
                0 <= i < events@.len() ==> same_event(#[trigger] events@[i], self.script@[i]),
    {
        let mut events: Vec<SandboxEvent> = Vec::new();
        let mut at: usize = 0;
        while at < self.script.len()
            invariant
                at <= self.script@.len(),
                events@.len() == at,
                forall|i: int| 0 <= i < at ==> same_event(#[trigger] events@[i], self.script@[i]),
            decreases self.script@.len() - at,
        {
            events.push(self.script[at].clone());
            at = at + 1;
        }
        events
    }
}

} // verus!
