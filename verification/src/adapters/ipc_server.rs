//! The user-actor IPC server: what each client is told.
//!
//! - The client's `HELLO` must echo the per-boot nonce; where the supervisor
//!   launched the user actor, the real client pid must be the launched one.
//!   A failure is answered with `ERROR` and a disconnect: one strike.
//! - Nothing but `HELLO` is answered before a verified handshake: earlier frames
//!   get an `ERROR`, never the configuration.
//! - A client that stays silent past the handshake timeout is dropped.

use vstd::prelude::*;

use crate::app::event::ScreenshotFrame;
use crate::domain::scope::{ScopeModel, ScopeState};
use crate::plugins::wire::{compose, following, message};
use crate::ports::joined_text;
use crate::protocol::config::UserActorSettings;
use crate::protocol::events::EventType;
use crate::protocol::ipc::{
    decode_screenshot, from_le32, FrameError, FrameHeader, Hello, Welcome, ERROR, GET_CONFIG, HELLO,
    IPC_PROTOCOL_VERSION, SCREENSHOT,
};
use crate::protocol::nats::Envelope;
use crate::protocol::payload::{Payload, UserActorStartedData, UserActorStoppedData};
use crate::text::opt_view;

verus! {

/// Fixed pipe name.
pub const PIPE_NAME: &'static str = "\\\\.\\pipe\\secoutfall\\user-actor-v1";

/// Default security descriptor: protected, full access for SYSTEM and
/// Administrators only.
pub const DEFAULT_PIPE_SDDL: &'static str = "D:P(A;;GA;;;SY)(A;;GA;;;BA)";

/// How long a client may take for a valid `HELLO`, milliseconds.
pub const HANDSHAKE_TIMEOUT_MS: u64 = 10000;

/// One boot's server.
#[derive(Debug)]
pub struct IpcServerAdapter {
    /// The user actor's configuration.
    pub user_actor_config: UserActorSettings,
    /// The per-boot secret.
    pub nonce: String,
    /// Security descriptor of the pipe.
    pub sddl: String,
    /// Full pipe name.
    pub pipe_name: String,
    /// Expected client pid; 0 = not known, the nonce alone decides.
    pub expected_client_pid: u32,
    /// How long a client may take for a valid `HELLO`, milliseconds.
    pub handshake_timeout_ms: u64,
    /// Report verified handshakes and disconnects on the wire.
    pub wire_reports: bool,
    /// The server was stopped.
    pub stopped: bool,
}

impl IpcServerAdapter {
    /// Assemble the adapter for one boot, with the default security descriptor.
    pub fn new(user_actor_config: UserActorSettings, nonce: String) -> (server: Self)
        ensures
            server.user_actor_config == user_actor_config,
            server.nonce == nonce,
            server.sddl@ == DEFAULT_PIPE_SDDL@,
            server.pipe_name@ == PIPE_NAME@,
            server.expected_client_pid == 0,
            server.handshake_timeout_ms == HANDSHAKE_TIMEOUT_MS,
            !server.wire_reports,
            !server.stopped,
    {
        IpcServerAdapter::with_sddl(user_actor_config, nonce, DEFAULT_PIPE_SDDL.to_owned())
    }

    /// Assemble with an explicit security descriptor.
    pub fn with_sddl(user_actor_config: UserActorSettings, nonce: String, sddl: String) -> (server: Self)
        ensures
            server.user_actor_config == user_actor_config,
            server.nonce == nonce,
            server.sddl == sddl,
            server.pipe_name@ == PIPE_NAME@,
            server.expected_client_pid == 0,
            server.handshake_timeout_ms == HANDSHAKE_TIMEOUT_MS,
            !server.wire_reports,
            !server.stopped,
    {
        IpcServerAdapter {
            user_actor_config,
            nonce,
            sddl,
            pipe_name: PIPE_NAME.to_owned(),
            expected_client_pid: 0,
            handshake_timeout_ms: HANDSHAKE_TIMEOUT_MS,
            wire_reports: false,
            stopped: false,
        }
    }

    /// Override the pipe name.
    pub fn with_pipe_name(self, pipe_name: String) -> (server: Self)
        ensures
            server == (IpcServerAdapter { pipe_name, ..self }),
    {
        IpcServerAdapter { pipe_name, ..self }
    }

    /// Gate the handshake on the launched user-actor's pid (0 = no gate).
    pub fn with_expected_client_pid(self, gate: u32) -> (server: Self)
        ensures
            server == (IpcServerAdapter { expected_client_pid: gate, ..self }),
    {
        IpcServerAdapter { expected_client_pid: gate, ..self }
    }

    /// Override the handshake timeout.
    pub fn with_handshake_timeout(self, timeout_ms: u64) -> (server: Self)
        ensures
            server == (IpcServerAdapter { handshake_timeout_ms: timeout_ms, ..self }),
    {
        IpcServerAdapter { handshake_timeout_ms: timeout_ms, ..self }
    }

    /// Report verified handshakes and disconnects on the wire.
    pub fn with_wire_reporter(self) -> (server: Self)
        ensures
            server == (IpcServerAdapter { wire_reports: true, ..self }),
    {
        IpcServerAdapter { wire_reports: true, ..self }
    }

    /// Stop the server (idempotent).
    pub fn stop(&mut self)
        ensures
            *final(self) == (IpcServerAdapter { stopped: true, ..*old(self) }),
    {
        self.stopped = true;
    }

    /// The state of a new connection.
    pub fn new_client_session(&self, state: &ScopeState) -> (session: ClientSession)
        ensures
            opens_for(*self, state@, session),
    {
        ClientSession {
            nonce: self.nonce.clone(),
            welcome: build_welcome(state, self.user_actor_config),
            wire_reports: self.wire_reports,
            handshaked: None,
        }
    }
}

/// What a client is welcomed with.
pub fn build_welcome(state: &ScopeState, config: UserActorSettings) -> (welcome: Welcome)
    ensures
        welcome == (Welcome { session_id: state@.session_id(), config }),
{
    Welcome { session_id: state.session_id(), config }
}

/// One connection.
#[derive(Debug)]
pub struct ClientSession {
    /// The per-boot secret.
    pub nonce: String,
    /// What the client is welcomed with.
    pub welcome: Welcome,
    /// Report the handshake and the disconnect on the wire.
    pub wire_reports: bool,
    /// The client's version, once its handshake was verified.
    pub handshaked: Option<String>,
}

/// What the client is answered, or what becomes of it.
#[derive(Debug)]
pub enum ServeAction {
    /// Send an `ERROR` with this text and go on.
    Refuse(String),
    /// Send an `ERROR` with this text and disconnect.
    RefuseAndClose(String),
    /// Parse the payload as `HELLO`, and hand the result over.
    ParseHello,
    /// Send `WELCOME` and go on.
    SendWelcome,
    /// Report the user actor, then send `WELCOME`, and go on.
    AnnounceAndWelcome,
    /// Hand the screenshot to the pipeline and go on.
    Forward(ScreenshotFrame),
    /// Log the client's error report and go on.
    NoteError,
    /// Disconnect.
    Close,
    /// Disconnect: the client broke the protocol.
    Fail(String),
}

/// The words of a framing violation.
pub open spec fn frame_error_words(error: FrameError) -> Seq<char> {
    match error {
        FrameError::PayloadTooLarge(length) => "frame payload over the cap: "@
            + crate::text::decimal_digits(length as nat) + " bytes"@,
        FrameError::ShortScreenshot => "screenshot payload too short"@,
    }
}

/// A framing violation in words.
pub fn frame_error_message(error: FrameError) -> (text: String)
    ensures
        text@ == frame_error_words(error),
{
    match error {
        FrameError::PayloadTooLarge(length) => {
            let mut text = joined_text(
                "frame payload over the cap: ",
                crate::text::decimal(length as u64).as_str(),
            );
            text.append(" bytes");
            text
        },
        FrameError::ShortScreenshot => "screenshot payload too short".to_owned(),
    }
}

/// Is the client the user actor that was launched: it speaks our version, knows
/// the nonce, and has the expected pid where one is expected? A pid of 0 could
/// not be queried.
pub open spec fn is_genuine(hello: Hello, nonce: Seq<char>, client_pid: u32, gate: u32) -> bool {
    &&& hello.protocol == IPC_PROTOCOL_VERSION
    &&& hello.nonce@ == nonce
    &&& gate == 0 || client_pid == gate
}

/// What a frame leads to.
pub open spec fn frame_leads_to(
    session: ClientSession,
    message_type: u16,
    payload: Seq<u8>,
    action: ServeAction,
) -> bool {
    if session.handshaked is None && message_type != HELLO {
        action matches ServeAction::Refuse(text) && text@ == "handshake required"@
    } else if message_type == HELLO {
        action is ParseHello
    } else if message_type == GET_CONFIG {
        action is SendWelcome
    } else if message_type == SCREENSHOT {
        if payload.len() >= 4 {
            action matches ServeAction::Forward(frame) && frame.seq == from_le32(payload, 0)
                && frame.jpeg@ == payload.skip(4)
        } else {
            action matches ServeAction::Fail(text) && text@ == frame_error_words(
                FrameError::ShortScreenshot,
            )
        }
    } else if message_type == ERROR {
        action is NoteError
    } else {
        action is Close
    }
}

/// What a `HELLO` (or why it could not be parsed) leads to.
pub open spec fn hello_leads_to(
    before: ClientSession,
    hello: Result<Hello, String>,
    client_pid: u32,
    gate: u32,
    after: ClientSession,
    action: ServeAction,
) -> bool {
    match hello {
        Err(error) => {
            &&& after == before
            &&& (action matches ServeAction::Fail(text) && text@ == "bad HELLO: "@ + error@)
        },
        Ok(hello) => if is_genuine(hello, before.nonce@, client_pid, gate) {
            &&& after == (ClientSession { handshaked: Some(hello.module_version), ..before })
            &&& action is AnnounceAndWelcome
        } else {
            &&& after == before
            &&& (action matches ServeAction::RefuseAndClose(text) && text@ == "handshake rejected"@)
        },
    }
}

/// What a connection starts with.
pub open spec fn opens_for(server: IpcServerAdapter, state: ScopeModel, session: ClientSession) -> bool {
    &&& session.nonce == server.nonce
    &&& session.welcome == (Welcome {
        session_id: state.session_id(),
        config: server.user_actor_config,
    })
    &&& session.wire_reports == server.wire_reports
    &&& session.handshaked is None
}

/// What becomes of a client at the handshake's deadline.
pub open spec fn deadline_leads_to(session: ClientSession, action: Option<ServeAction>) -> bool {
    match action {
        Some(action) => session.handshaked is None && (action matches ServeAction::RefuseAndClose(text)
            && text@ == "handshake timeout"@),
        None => session.handshaked is Some,
    }
}

/// What is reported of a client whose handshake was verified.
pub open spec fn announces(
    session: ClientSession,
    state: ScopeModel,
    seq: u64,
    now_ms: i64,
    client_pid: u32,
    envelope: Option<Envelope>,
    seq_after: u64,
) -> bool {
    match (session.handshaked, session.wire_reports) {
        (Some(module_version), true) => {
            &&& envelope == Some(
                message(
                    state,
                    seq,
                    now_ms,
                    Payload::UserActorStarted(
                        UserActorStartedData {
                            module_version,
                            pid: if client_pid == 0 {
                                None
                            } else {
                                Some(client_pid)
                            },
                        },
                    ),
                ),
            )
            &&& seq_after == following(seq)
        },
        _ => envelope is None && seq_after == seq,
    }
}

/// What is reported of a client that went.
pub open spec fn signs_off(
    session: ClientSession,
    state: ScopeModel,
    seq: u64,
    now_ms: i64,
    reason: Option<String>,
    envelope: Option<Envelope>,
    seq_after: u64,
) -> bool {
    if session.handshaked is Some && session.wire_reports {
        &&& envelope == Some(
            message(state, seq, now_ms, Payload::UserActorStopped(UserActorStoppedData { reason })),
        )
        &&& seq_after == following(seq)
    } else {
        envelope is None && seq_after == seq
    }
}

impl ClientSession {
    /// Take in a frame.
    pub fn on_frame(&self, message_type: u16, payload: &Vec<u8>) -> (action: ServeAction)
        ensures
            frame_leads_to(*self, message_type, payload@, action),
    {
        if self.handshaked.is_none() && message_type != HELLO {
            return ServeAction::Refuse("handshake required".to_owned());
        }
        if message_type == HELLO {
            ServeAction::ParseHello
        } else if message_type == GET_CONFIG {
            ServeAction::SendWelcome
        } else if message_type == SCREENSHOT {
            match decode_screenshot(payload) {
                Ok((seq, jpeg)) => ServeAction::Forward(ScreenshotFrame { seq, jpeg }),
                Err(error) => ServeAction::Fail(frame_error_message(error)),
            }
        } else if message_type == ERROR {
            ServeAction::NoteError
        } else {
            ServeAction::Close
        }
    }

    /// Take in a parsed `HELLO` (or why it could not be parsed), with the client's
    /// real pid and the expected one.
    pub fn on_hello(&mut self, hello: Result<Hello, String>, client_pid: u32, gate: u32) -> (action: ServeAction)
        ensures
            hello_leads_to(*old(self), hello, client_pid, gate, *final(self), action),
    {
        let hello = match hello {
            Ok(hello) => hello,
            Err(error) => return ServeAction::Fail(joined_text("bad HELLO: ", error.as_str())),
        };
        let nonce_ok = hello.protocol == IPC_PROTOCOL_VERSION && same_text(
            hello.nonce.as_str(),
            self.nonce.as_str(),
        );
        let pid_ok = gate == 0 || client_pid == gate;
        if !nonce_ok || !pid_ok {
            return ServeAction::RefuseAndClose("handshake rejected".to_owned());
        }
        self.handshaked = Some(hello.module_version);
        ServeAction::AnnounceAndWelcome
    }

    /// The handshake deadline has passed: a client that has not shaken hands is
    /// dropped.
    pub fn on_deadline(&self) -> (action: Option<ServeAction>)
        ensures
            deadline_leads_to(*self, action),
    {
        if self.handshaked.is_none() {
            Some(ServeAction::RefuseAndClose("handshake timeout".to_owned()))
        } else {
            None
        }
    }

    /// `user_actor.started`, from a verified handshake; `None` = it is not
    /// reported.
    pub fn publish_user_actor_started(
        &self,
        state: &ScopeState,
        seq: &mut u64,
        now_ms: i64,
        client_pid: u32,
    ) -> (envelope: Option<Envelope>)
        ensures
            announces(*self, state@, *old(seq), now_ms, client_pid, envelope, *final(seq)),
    {
        if !self.wire_reports {
            return None;
        }
        match &self.handshaked {
            None => None,
            Some(version) => {
                let pid = if client_pid == 0 {
                    None
                } else {
                    Some(client_pid)
                };
                let data = UserActorStartedData { module_version: version.clone(), pid };
                Some(
                    compose(
                        state,
                        seq,
                        now_ms,
                        EventType::UserActorStarted,
                        Payload::UserActorStarted(data),
                    ),
                )
            },
        }
    }

    /// `user_actor.stopped`, when an established connection ends; `None` = it is
    /// not reported.
    pub fn publish_user_actor_stopped(
        &self,
        state: &ScopeState,
        seq: &mut u64,
        now_ms: i64,
        reason: Option<String>,
    ) -> (envelope: Option<Envelope>)
        ensures
            signs_off(*self, state@, *old(seq), now_ms, reason, envelope, *final(seq)),
    {
        if self.handshaked.is_none() || !self.wire_reports {
            return None;
        }
        let data = UserActorStoppedData { reason };
        Some(
            compose(
                state,
                seq,
                now_ms,
                EventType::UserActorStopped,
                Payload::UserActorStopped(data),
            ),
        )
    }
}

/// Until its handshake is verified a client is never sent the configuration, and
/// nothing it sends reaches the pipeline, whatever frames it sends.
pub proof fn law_nothing_before_the_handshake(
    session: ClientSession,
    message_type: u16,
    payload: Seq<u8>,
    action: ServeAction,
)
    requires
        session.handshaked is None,
        frame_leads_to(session, message_type, payload, action),
    ensures
        action is Refuse || action is ParseHello,
        !(action is SendWelcome),
        !(action is AnnounceAndWelcome),
        !(action is Forward),
{
}

/// Only a genuine client is welcomed, and its handshake is then on record; any
/// other has one strike: it is refused and disconnected, and nothing about it is
/// recorded.
pub proof fn law_only_genuine_clients_are_welcomed(
    before: ClientSession,
    hello: Hello,
    client_pid: u32,
    gate: u32,
    after: ClientSession,
    action: ServeAction,
)
    requires
        hello_leads_to(before, Ok(hello), client_pid, gate, after, action),
    ensures
        action is AnnounceAndWelcome <==> is_genuine(hello, before.nonce@, client_pid, gate),
        action is AnnounceAndWelcome ==> after.handshaked is Some,
        !(action is AnnounceAndWelcome) ==> action is RefuseAndClose && after == before,
{
}

/// A client that does not know the nonce is not genuine, whatever its pid; one
/// with a foreign pid is not, whatever it knows, once a pid is expected. A pid
/// that could not be queried is foreign.
pub proof fn law_impostors_are_not_genuine(hello: Hello, nonce: Seq<char>, client_pid: u32, gate: u32)
    ensures
        hello.nonce@ != nonce ==> !is_genuine(hello, nonce, client_pid, gate),
        gate != 0 && client_pid != gate ==> !is_genuine(hello, nonce, client_pid, gate),
        gate != 0 ==> !is_genuine(hello, nonce, 0, gate),
{
}

/// The header of an outgoing frame; `None` = the payload's length is not a 32-bit
/// number.
pub fn send_frame(message_type: u16, payload_len: usize) -> (header: Option<FrameHeader>)
    ensures
        header == if payload_len <= u32::MAX {
            Some(FrameHeader { payload_len: payload_len as u32, message_type, flags: 0 })
        } else {
            None
        },
{
    if payload_len <= u32::MAX as usize {
        Some(FrameHeader { payload_len: payload_len as u32, message_type, flags: 0 })
    } else {
        None
    }
}

/// Are the two texts the same? Takes the same time wherever they differ.
fn same_text(left: &str, right: &str) -> (same: bool)
    ensures
        same == (left@ == right@),
{
    proof {
        vstd::utf8::encode_utf8_decode_utf8(left@);
        vstd::utf8::encode_utf8_decode_utf8(right@);
    }
    constant_time_eq(left.as_bytes(), right.as_bytes())
}

/// Comparison that looks at every byte.
pub fn constant_time_eq(a: &[u8], b: &[u8]) -> (same: bool)
    ensures
        same == (a@ == b@),
{
    if a.len() != b.len() {
        return false;
    }
    let mut difference: u8 = 0;
    let mut at: usize = 0;
    proof {
        assert(a@.take(0) =~= b@.take(0));
    }
    while at < a.len()
        invariant
            at <= a@.len(),
            a@.len() == b@.len(),
            difference == 0 <==> a@.take(at as int) == b@.take(at as int),
        decreases a@.len() - at,
    {
        let x: u8 = a[at];
        let y: u8 = b[at];
        let before: u8 = difference;
        difference = before | (x ^ y);
        proof {
            assert(before | (x ^ y) == 0 <==> before == 0 && x == y) by (bit_vector);
            assert(a@.take(at + 1) =~= a@.take(at as int).push(x));
            assert(b@.take(at + 1) =~= b@.take(at as int).push(y));
            if a@.take(at + 1) == b@.take(at + 1) {
                assert(a@.take(at + 1).drop_last() =~= a@.take(at as int));
                assert(b@.take(at + 1).drop_last() =~= b@.take(at as int));
                assert(a@.take(at + 1).last() == x && b@.take(at + 1).last() == y);
            }
        }
        at = at + 1;
    }
    proof {
        assert(a@.take(a@.len() as int) =~= a@);
        assert(b@.take(b@.len() as int) =~= b@);
    }
    difference == 0
}

/// The pipe's security descriptor that also lets the console user in.
pub open spec fn user_sddl(sid: Seq<char>) -> Seq<char> {
    DEFAULT_PIPE_SDDL@ + "(A;;GA;;;"@ + sid + ")"@
}

/// Build a pipe security descriptor that additionally grants the console user,
/// whose token the user actor runs under, full access. `None` = nobody is logged
/// on, or the user cannot be told: the default applies.
pub fn console_user_pipe_sddl(sid: Option<String>) -> (sddl: Option<String>)
    ensures
        opt_view(sddl) == match sid {
            Some(sid) => Some(user_sddl(sid@)),
            None => None,
        },
{
    match sid {
        Some(sid) => {
            let mut text = joined_text(DEFAULT_PIPE_SDDL, "(A;;GA;;;");
            text.append(sid.as_str());
            text.append(")");
            Some(text)
        },
        None => None,
    }
}

} // verus!
