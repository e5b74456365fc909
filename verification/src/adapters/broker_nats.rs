//! The NATS broker: subjects, the startup retry budget, and loss accounting.
//!
//! Subjects are validated against the NATS token grammar before the first
//! connection attempt: a malformed subject must fail at boot, not corrupt the
//! stream. The broker may come up after the VM boots, so the connection is
//! attempted many times before the agent gives up.

use vstd::prelude::*;

use crate::ports::{joined_text, BrokerError, Channel};
use crate::protocol::config::BrokerConfig;
use crate::text::{chars_of, decimal, decimal_digits, split, split_on, views};

verus! {

/// Startup retry budget.
pub const CONNECT_ATTEMPTS: u32 = 18;

/// Delay between startup attempts, seconds.
pub const CONNECT_RETRY_DELAY_SECS: u64 = 5;

/// Connection failures.
#[derive(Debug, PartialEq, Eq)]
pub enum ConnectError {
    /// Every attempt failed; the last error is carried for diagnosis.
    RetriesExhausted {
        /// Total attempts made.
        attempts: u32,
        /// Text of the final underlying error.
        last_error: String,
    },
    /// A configured subject violates the NATS token grammar.
    InvalidSubject {
        /// The offending configured subject.
        subject: String,
        /// What is wrong with it.
        detail: String,
    },
}

impl ConnectError {
    /// The failure in words.
    pub open spec fn words(self) -> Seq<char> {
        match self {
            ConnectError::RetriesExhausted { attempts, last_error } => "NATS connect failed after "@
                + decimal_digits(attempts as nat) + " attempts: "@ + last_error@,
            ConnectError::InvalidSubject { subject, detail } => "invalid NATS subject `"@ + subject@
                + "`: "@ + detail@,
        }
    }

    /// The failure in words.
    pub fn message(&self) -> (text: String)
        ensures
            text@ == self.words(),
    {
        match self {
            ConnectError::RetriesExhausted { attempts, last_error } => {
                let mut text = joined_text(
                    "NATS connect failed after ",
                    decimal(*attempts as u64).as_str(),
                );
                text.append(" attempts: ");
                text.append(last_error.as_str());
                text
            },
            ConnectError::InvalidSubject { subject, detail } => {
                let mut text = joined_text("invalid NATS subject `", subject.as_str());
                text.append("`: ");
                text.append(detail.as_str());
                text
            },
        }
    }
}

/// The characters of a subject token: ASCII letters and digits, `_`, `-` and the
/// wildcards.
pub open spec fn is_token_char(c: char) -> bool {
    ||| '0' <= c <= '9'
    ||| 'A' <= c <= 'Z'
    ||| 'a' <= c <= 'z'
    ||| c == '_'
    ||| c == '-'
    ||| c == '*'
    ||| c == '>'
}

/// Is this a subject token?
pub open spec fn is_token(token: Seq<char>) -> bool {
    &&& token.len() > 0
    &&& forall|i: int| 0 <= i < token.len() ==> is_token_char(#[trigger] token[i])
}

/// Is this a subject: tokens with dots between them?
pub open spec fn is_subject(subject: Seq<char>) -> bool {
    let tokens = split_on(subject, '.');
    forall|i: int| 0 <= i < tokens.len() ==> is_token(#[trigger] tokens[i])
}

/// What is wrong with a text that is no token.
pub open spec fn token_fault(token: Seq<char>) -> Seq<char> {
    if token.len() == 0 {
        "empty token"@
    } else {
        "illegal character in token `"@ + token + "`"@
    }
}

/// Is `detail` the fault of the first part that is no token?
pub open spec fn is_first_fault(tokens: Seq<Seq<char>>, detail: Seq<char>) -> bool {
    exists|at: int|
        0 <= at < tokens.len() && !is_token(#[trigger] tokens[at]) && detail == token_fault(tokens[at])
            && forall|i: int| 0 <= i < at ==> is_token(#[trigger] tokens[i])
}

/// Is this a subject token?
fn check_token(token: &str) -> (valid: bool)
    ensures
        valid == is_token(token@),
{
    let chars = chars_of(token);
    let mut at: usize = 0;
    while at < chars.len()
        invariant
            at <= chars@.len(),
            chars@ == token@,
            forall|i: int| 0 <= i < at ==> is_token_char(#[trigger] token@[i]),
        decreases chars@.len() - at,
    {
        let c = chars[at];
        if !(('0' <= c && c <= '9') || ('A' <= c && c <= 'Z') || ('a' <= c && c <= 'z') || c == '_' || c
            == '-' || c == '*' || c == '>') {
            proof {
                assert(!is_token_char(token@[at as int]));
            }
            return false;
        }
        at = at + 1;
    }
    at > 0
}

/// Validate one subject against the NATS token grammar (a conservative subset:
/// alphanumerics, `_`, `-`, and the wildcard tokens). The first offending token
/// is reported.
pub fn validate_subject(subject: &str) -> (checked: Result<(), ConnectError>)
    ensures
        match checked {
            Ok(()) => is_subject(subject@),
            Err(ConnectError::InvalidSubject { subject: named, detail }) => {
                &&& !is_subject(subject@)
                &&& named@ == subject@
                &&& is_first_fault(split_on(subject@, '.'), detail@)
            },
            Err(_) => false,
        },
{
    let tokens = split(subject, '.');
    let ghost parts = split_on(subject@, '.');
    let mut at: usize = 0;
    while at < tokens.len()
        invariant
            at <= tokens@.len(),
            views(tokens@) == parts,
            parts == split_on(subject@, '.'),
            forall|i: int| 0 <= i < at ==> is_token(#[trigger] parts[i]),
        decreases tokens@.len() - at,
    {
        let token = tokens[at].as_str();
        proof {
            assert(token@ == parts[at as int]);
        }
        if !check_token(token) {
            let detail = if token.is_empty() {
                "empty token".to_owned()
            } else {
                let mut text = joined_text("illegal character in token `", token);
                text.append("`");
                text
            };
            proof {
                assert(detail@ == token_fault(parts[at as int]));
                assert(!is_token(parts[at as int]));
            }
            return Err(ConnectError::InvalidSubject { subject: subject.to_owned(), detail });
        }
        at = at + 1;
    }
    Ok(())
}

/// Progress of the startup connection.
#[derive(Debug)]
pub struct Dial {
    /// Attempts allowed.
    pub attempts: u32,
    /// Attempts that failed.
    pub made: u32,
    /// Text of the latest error.
    pub last_error: String,
}

/// What the startup connection does next.
#[derive(Debug)]
pub enum DialAction {
    /// Attempt a connection.
    Connect,
    /// Give up.
    GiveUp(ConnectError),
}

/// How the startup connection begins: both subjects are checked, the control
/// channel's first.
pub open spec fn dial_begins(
    config: BrokerConfig,
    attempts: u32,
    dial: Result<Dial, ConnectError>,
) -> bool {
    match dial {
        Ok(dial) => {
            &&& is_subject(config.control_channel@)
            &&& is_subject(config.event_channel@)
            &&& dial.wf()
            &&& dial.attempts == attempts
            &&& dial.made == 0
            &&& dial.last_error@ == "no attempts made"@
        },
        Err(ConnectError::InvalidSubject { subject, detail }) => {
            let bad = if !is_subject(config.control_channel@) {
                config.control_channel@
            } else {
                config.event_channel@
            };
            &&& !is_subject(bad)
            &&& subject@ == bad
            &&& is_first_fault(split_on(bad, '.'), detail@)
        },
        Err(_) => false,
    }
}

/// What the startup connection does next.
pub open spec fn dials(dial: Dial, action: DialAction) -> bool {
    match action {
        DialAction::Connect => dial.made < dial.attempts,
        DialAction::GiveUp(error) => dial.made == dial.attempts && (
        error matches ConnectError::RetriesExhausted { attempts, last_error } && attempts
            == dial.attempts && last_error@ == dial.last_error@),
    }
}

/// The startup connection after a failed attempt.
pub open spec fn dial_fails(before: Dial, error: String, after: Dial) -> bool {
    after == Dial { made: (before.made + 1) as u32, last_error: error, ..before }
}

impl Dial {
    /// No more failures than attempts.
    pub open spec fn wf(&self) -> bool {
        self.made <= self.attempts
    }

    /// Prepare to connect: both subjects are validated first, the control
    /// channel's before the event channel's.
    pub fn new(config: &BrokerConfig, attempts: u32) -> (dial: Result<Dial, ConnectError>)
        ensures
            dial_begins(*config, attempts, dial),
    {
        match validate_subject(config.control_channel.as_str()) {
            Ok(()) => {},
            Err(error) => return Err(error),
        }
        match validate_subject(config.event_channel.as_str()) {
            Ok(()) => {},
            Err(error) => return Err(error),
        }
        Ok(Dial { attempts, made: 0, last_error: "no attempts made".to_owned() })
    }

    /// The next step: another attempt while the budget lasts.
    pub fn next(&self) -> (action: DialAction)
        requires
            self.wf(),
        ensures
            dials(*self, action),
    {
        if self.made < self.attempts {
            DialAction::Connect
        } else {
            DialAction::GiveUp(
                ConnectError::RetriesExhausted {
                    attempts: self.attempts,
                    last_error: self.last_error.clone(),
                },
            )
        }
    }

    /// An attempt failed.
    pub fn failed(&mut self, error: String)
        requires
            old(self).made < old(self).attempts,
        ensures
            final(self).wf(),
            dial_fails(*old(self), error, *final(self)),
    {
        self.made = self.made + 1;
        self.last_error = error;
    }
}

/// A connected broker.
#[derive(Debug)]
pub struct NatsBrokerAdapter {
    /// Subject of the control channel.
    pub control_subject: String,
    /// Subject of the event channel.
    pub event_subject: String,
    /// Wire messages dropped because the connection was down.
    pub loss: u64,
}

/// Is this the broker of a configuration, before anything was lost?
pub open spec fn serves(config: BrokerConfig, broker: NatsBrokerAdapter) -> bool {
    &&& broker.control_subject@ == config.control_channel@
    &&& broker.event_subject@ == config.event_channel@
    &&& broker.loss == 0
}

/// What becomes of the broker, and of the publish, with the outcome of a send.
pub open spec fn settles(
    before: NatsBrokerAdapter,
    outcome: SendOutcome,
    after: NatsBrokerAdapter,
    result: Result<(), BrokerError>,
) -> bool {
    match outcome {
        SendOutcome::Sent => result is Ok && after == before,
        SendOutcome::Unwritable => result == Err::<(), BrokerError>(BrokerError::ConnectionLost)
            && after == before,
        SendOutcome::Lost => result == Err::<(), BrokerError>(BrokerError::ConnectionLost) && after == (
        NatsBrokerAdapter { loss: crate::plugins::wire::following(before.loss), ..before }),
    }
}

impl NatsBrokerAdapter {
    /// The subject of a channel.
    pub open spec fn subject_of(&self, channel: Channel) -> Seq<char> {
        match channel {
            Channel::Control => self.control_subject@,
            Channel::Event => self.event_subject@,
        }
    }

    /// The broker of a connection made with this configuration.
    pub fn connected(config: &BrokerConfig) -> (broker: Self)
        ensures
            serves(*config, broker),
    {
        NatsBrokerAdapter {
            control_subject: config.control_channel.clone(),
            event_subject: config.event_channel.clone(),
            loss: 0,
        }
    }

    /// Wire messages dropped because the connection was down (diagnostics).
    pub fn loss_count(&self) -> (count: u64)
        ensures
            count == self.loss,
    {
        self.loss
    }

    /// The subject of a channel.
    pub fn subject(&self, channel: Channel) -> (subject: &str)
        ensures
            subject@ == self.subject_of(channel),
    {
        match channel {
            Channel::Control => self.control_subject.as_str(),
            Channel::Event => self.event_subject.as_str(),
        }
    }

    /// What a publish reports, and its loss accounting: a message that could not
    /// be sent is counted; one that could not even be written down is not.
    pub fn published(&mut self, outcome: SendOutcome) -> (result: Result<(), BrokerError>)
        ensures
            settles(*old(self), outcome, *final(self), result),
    {
        match outcome {
            SendOutcome::Sent => Ok(()),
            SendOutcome::Unwritable => Err(BrokerError::ConnectionLost),
            SendOutcome::Lost => {
                self.loss = self.loss.wrapping_add(1);
                Err(BrokerError::ConnectionLost)
            },
        }
    }
}

/// How sending a message ended.
#[derive(Debug, Clone, Copy, PartialEq, Eq, Structural)]
pub enum SendOutcome {
    /// It was handed to the connection.
    Sent,
    /// The connection refused it.
    Lost,
    /// It could not be serialized.
    Unwritable,
}

/// A text is a subject exactly when nothing is wrong with any of its parts: no
/// fault is reported of a subject, and of every other text one is.
pub proof fn law_subjects_are_the_faultless_texts(subject: Seq<char>)
    ensures
        is_subject(subject) <==> !(exists|detail: Seq<char>|
            #[trigger] is_first_fault(split_on(subject, '.'), detail)),
{
    let tokens = split_on(subject, '.');
    if !is_subject(subject) {
        let bad = choose|i: int| 0 <= i < tokens.len() && !is_token(#[trigger] tokens[i]);
        lemma_first_bad(tokens, bad);
    }
}

/// A part that is no token has a first of its kind.
proof fn lemma_first_bad(tokens: Seq<Seq<char>>, bad: int)
    requires
        0 <= bad < tokens.len(),
        !is_token(tokens[bad]),
    ensures
        exists|detail: Seq<char>| #[trigger] is_first_fault(tokens, detail),
    decreases bad,
{
    if forall|i: int| 0 <= i < bad ==> is_token(#[trigger] tokens[i]) {
        assert(is_first_fault(tokens, token_fault(tokens[bad])));
    } else {
        let earlier = choose|i: int| 0 <= i < bad && !is_token(#[trigger] tokens[i]);
        lemma_first_bad(tokens, earlier);
    }
}

} // verus!
