//! Brokers for runs without a NATS server: the console printer, the fan-out and
//! the recording one.

use vstd::prelude::*;

use crate::domain::study_id::{hex_number, law_hex_number_length, StudyId};
use crate::plugins::wire::following;
use crate::ports::{joined_text, BrokerError, Channel};
use crate::protocol::events::EventType;
use crate::protocol::nats::Envelope;
use crate::text::{decimal, decimal_digits};

verus! {

/// Prints each envelope (except keepalives) and counts traffic. Publishing always
/// succeeds: nothing downstream exists to fail.
#[derive(Debug)]
pub struct ConsoleBroker {
    /// Keepalives seen but not printed.
    pub keepalives: u64,
    /// Envelopes printed.
    pub printed: u64,
}

/// Should this event type be printed? Keepalives are the heartbeat; they would
/// drown the interesting traffic.
pub fn should_print(event_type: EventType) -> (print: bool)
    ensures
        print == (event_type != EventType::ControlKeepalive),
{
    match event_type {
        EventType::ControlKeepalive => false,
        _ => true,
    }
}

/// Channel name for the log line, seven columns wide, flush right.
pub open spec fn label(channel: Channel) -> Seq<char> {
    match channel {
        Channel::Control => "control"@,
        Channel::Event => " events"@,
    }
}

/// The line that an envelope is printed as.
pub open spec fn printed_line(channel: Channel, envelope: Envelope) -> Seq<char> {
    "["@ + label(channel) + "] #"@ + decimal_digits(envelope.seq as nat) + " "@ + envelope.event_type.name()
        + " session="@ + decimal_digits(envelope.session as nat) + " study="@ + hex_number(
        envelope.study.bits as nat,
        32,
    ).take(8)
}

/// The first eight digits of a study id.
fn study_prefix(study: StudyId) -> (text: String)
    ensures
        text@ == hex_number(study.bits as nat, 32).take(8),
{
    let text = study.simple();
    proof {
        law_hex_number_length(study.bits as nat, 32);
    }
    let prefix = text.as_str().substring_char(0, 8);
    proof {
        assert(prefix@ =~= text@.take(8));
    }
    prefix.to_owned()
}

/// What the console prints of an envelope, and what it counts.
pub open spec fn prints(
    before: ConsoleBroker,
    channel: Channel,
    envelope: Envelope,
    after: ConsoleBroker,
    line: Option<String>,
) -> bool {
    if envelope.event_type == EventType::ControlKeepalive {
        &&& line is None
        &&& after == ConsoleBroker { keepalives: following(before.keepalives), ..before }
    } else {
        &&& line is Some
        &&& line->0@ == printed_line(channel, envelope)
        &&& after == ConsoleBroker { printed: following(before.printed), ..before }
    }
}

impl ConsoleBroker {
    /// Keepalives suppressed so far.
    pub fn suppressed_keepalives(&self) -> (count: u64)
        ensures
            count == self.keepalives,
    {
        self.keepalives
    }

    /// Envelopes printed so far.
    pub fn printed(&self) -> (count: u64)
        ensures
            count == self.printed,
    {
        self.printed
    }

    /// Take in an envelope; the line to print, `None` = a suppressed keepalive.
    pub fn publish(&mut self, channel: Channel, envelope: &Envelope) -> (line: Option<String>)
        ensures
            prints(*old(self), channel, *envelope, *final(self), line),
    {
        if !should_print(envelope.event_type) {
            self.keepalives = self.keepalives.wrapping_add(1);
            return None;
        }
        self.printed = self.printed.wrapping_add(1);
        let name = match channel {
            Channel::Control => "control",
            Channel::Event => " events",
        };
        let mut line = joined_text("[", name);
        line.append("] #");
        line.append(decimal(envelope.seq).as_str());
        line.append(" ");
        line.append(envelope.event_type.as_str());
        line.append(" session=");
        line.append(decimal(envelope.session as u64).as_str());
        line.append(" study=");
        line.append(study_prefix(envelope.study).as_str());
        Some(line)
    }
}

impl Default for ConsoleBroker {
    fn default() -> (broker: Self)
        ensures
            broker.keepalives == 0,
            broker.printed == 0,
    {
        ConsoleBroker { keepalives: 0, printed: 0 }
    }
}

/// Fan-out over ordered sinks. A sink that fails never masks the others.
#[derive(Debug)]
pub struct TeeBroker<S> {
    /// The sinks, in order.
    pub sinks: Vec<S>,
}

/// Did every sink fail?
pub open spec fn all_failed(outcomes: Seq<Result<(), BrokerError>>) -> bool {
    forall|i: int| 0 <= i < outcomes.len() ==> (#[trigger] outcomes[i]) is Err
}

/// What a publish through several sinks comes to.
pub open spec fn tee_settles(
    outcomes: Seq<Result<(), BrokerError>>,
    result: Result<(), BrokerError>,
) -> bool {
    match result {
        Ok(()) => !all_failed(outcomes),
        Err(BrokerError::Persistence(text)) => all_failed(outcomes) && text@ == "all tee sinks failed"@,
        Err(_) => false,
    }
}

impl<S> TeeBroker<S> {
    /// Fan out to `sinks`, in order.
    pub fn new(sinks: Vec<S>) -> (tee: Self)
        ensures
            tee.sinks == sinks,
    {
        TeeBroker { sinks }
    }

    /// The sink that is asked next, given what those before it reported: each is asked
    /// once, in order, whatever the others said. `None` = all were asked.
    pub fn next_sink(&self, outcomes: &Vec<Result<(), BrokerError>>) -> (sink: Option<&S>)
        ensures
            match sink {
                Some(sink) => outcomes@.len() < self.sinks@.len() && *sink == self.sinks@[outcomes@.len() as int],
                None => outcomes@.len() >= self.sinks@.len(),
            },
    {
        if outcomes.len() < self.sinks.len() {
            Some(&self.sinks[outcomes.len()])
        } else {
            None
        }
    }

    /// What a publish reports, from what each sink reported: failure only when
    /// nothing accepted the message (which is also so when there is no sink).
    pub fn verdict(&self, outcomes: &Vec<Result<(), BrokerError>>) -> (result: Result<(), BrokerError>)
        requires
            outcomes@.len() == self.sinks@.len(),
        ensures
            tee_settles(outcomes@, result),
    {
        let mut at: usize = 0;
        while at < outcomes.len()
            invariant
                at <= outcomes@.len(),
                forall|i: int| 0 <= i < at ==> (#[trigger] outcomes@[i]) is Err,
            decreases outcomes@.len() - at,
        {
            match &outcomes[at] {
                Ok(()) => {
                    proof {
                        assert(!(outcomes@[at as int] is Err));
                    }
                    return Ok(());
                },
                Err(_) => {},
            }
            at = at + 1;
        }
        Err(BrokerError::Persistence("all tee sinks failed".to_owned()))
    }
}

/// Captures published envelopes.
#[derive(Debug)]
pub struct FakeBroker {
    /// Everything published, in order.
    pub published: Vec<(Channel, Envelope)>,
}

/// The envelopes published on a channel, in order.
pub open spec fn on_channel(published: Seq<(Channel, Envelope)>, channel: Channel) -> Seq<Envelope>
    decreases published.len(),
{
    if published.len() == 0 {
        Seq::empty()
    } else {
        let earlier = on_channel(published.drop_last(), channel);
        if published.last().0 == channel {
            earlier.push(published.last().1)
        } else {
            earlier
        }
    }
}

/// The types of some envelopes.
pub open spec fn types_of(envelopes: Seq<Envelope>) -> Seq<EventType> {
    envelopes.map_values(|envelope: Envelope| envelope.event_type)
}

impl FakeBroker {
    /// Everything published, in order.
    pub fn published(&self) -> (published: &Vec<(Channel, Envelope)>)
        ensures
            *published == self.published,
    {
        &self.published
    }

    /// Capture an envelope; never fails.
    pub fn publish(&mut self, channel: Channel, envelope: Envelope) -> (result: Result<(), BrokerError>)
        ensures
            result is Ok,
            final(self).published@ == old(self).published@.push((channel, envelope)),
    {
        self.published.push((channel, envelope));
        Ok(())
    }

    /// Envelopes published on one channel, in order.
    pub fn of_channel(&self, channel: Channel) -> (envelopes: Vec<&Envelope>)
        ensures
            envelopes@.map_values(|envelope: &Envelope| *envelope) == on_channel(
                self.published@,
                channel,
            ),
    {
        let mut envelopes: Vec<&Envelope> = Vec::new();
        let ghost deref = |envelope: &Envelope| *envelope;
        let mut at: usize = 0;
        proof {
            assert(self.published@.take(0) =~= Seq::<(Channel, Envelope)>::empty());
            assert(envelopes@.map_values(deref) =~= Seq::<Envelope>::empty());
        }
        while at < self.published.len()
            invariant
                at <= self.published@.len(),
                deref == (|envelope: &Envelope| *envelope),
                envelopes@.map_values(deref) == on_channel(self.published@.take(at as int), channel),
            decreases self.published@.len() - at,
        {
            let ghost prior = envelopes@.map_values(deref);
            proof {
                assert(self.published@.take(at + 1).drop_last() =~= self.published@.take(at as int));
            }
            if self.published[at].0 == channel {
                envelopes.push(&self.published[at].1);
                proof {
                    assert(envelopes@.map_values(deref) =~= prior.push(self.published@[at as int].1));
                }
            }
            at = at + 1;
        }
        proof {
            assert(self.published@.take(at as int) =~= self.published@);
        }
        envelopes
    }

    /// Event-type sequence of the event channel, in order.
    pub fn event_sequence(&self) -> (types: Vec<EventType>)
        ensures
            types@ == types_of(on_channel(self.published@, Channel::Event)),
    {
        let mut types: Vec<EventType> = Vec::new();
        let mut at: usize = 0;
        proof {
            assert(self.published@.take(0) =~= Seq::<(Channel, Envelope)>::empty());
            assert(types@ =~= types_of(Seq::<Envelope>::empty()));
        }
        while at < self.published.len()
            invariant
                at <= self.published@.len(),
                types@ == types_of(on_channel(self.published@.take(at as int), Channel::Event)),
            decreases self.published@.len() - at,
        {
            let ghost earlier = on_channel(self.published@.take(at as int), Channel::Event);
            proof {
                assert(self.published@.take(at + 1).drop_last() =~= self.published@.take(at as int));
            }
            if self.published[at].0 == Channel::Event {
                types.push(self.published[at].1.event_type);
                proof {
                    assert(types@ =~= types_of(earlier.push(self.published@[at as int].1)));
                }
            }
            at = at + 1;
        }
        proof {
            assert(self.published@.take(at as int) =~= self.published@);
        }
        types
    }
}

impl Default for FakeBroker {
    fn default() -> (broker: Self)
        ensures
            broker.published@.len() == 0,
    {
        FakeBroker { published: Vec::new() }
    }
}

/// Every message is on exactly one of the two channels: their parts add up to
/// everything that was published.
pub proof fn law_channels_share_the_traffic(published: Seq<(Channel, Envelope)>)
    ensures
        on_channel(published, Channel::Control).len() + on_channel(published, Channel::Event).len()
            == published.len(),
    decreases published.len(),
{
    if published.len() > 0 {
        law_channels_share_the_traffic(published.drop_last());
    }
}

} // verus!
