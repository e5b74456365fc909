//! What clients, brokers, uploads and deadlines promise over several steps.

use vstd::prelude::*;

use crate::adapters::broker::{on_channel, prints, tee_settles, ConsoleBroker};
use crate::adapters::broker_nats::{
    dial_begins, dial_fails, dials, is_subject, is_token, serves, settles, ConnectError, Dial, DialAction, NatsBrokerAdapter,
};
use crate::adapters::ipc_server::{
    announces, deadline_leads_to, frame_leads_to, hello_leads_to, opens_for, signs_off, ClientSession,
    IpcServerAdapter, ServeAction,
};
use crate::adapters::scheduler::{beats, delay_secs};
use crate::adapters::upload::{takes_chunk, upload_begins, upload_ends, CappedStream, OpenOutcome};
use crate::domain::scope::ScopeModel;
use crate::plugins::wire::following;
use crate::ports::{BrokerError, Channel, UploadError};
use crate::protocol::config::BrokerConfig;
use crate::protocol::ipc::{
    le32, lemma_screenshot_bytes, Hello, GET_CONFIG, HELLO, IPC_PROTOCOL_VERSION, SCREENSHOT,
};
use crate::protocol::nats::Envelope;
use crate::protocol::payload::Payload;
use crate::text::joined;
use crate::text_laws::law_splitting_undoes_joining;

verus! {

// ---- The pipe ----

/// A client that says hello with the boot's secret, in the right version and from
/// the expected process is announced by the version it gave and its pid, and is
/// welcomed with the current session and the configuration. From there on its
/// questions are answered and its screenshots forwarded as sent, and the
/// deadline no longer touches it.
pub proof fn law_a_genuine_client_is_served(
    server: IpcServerAdapter,
    state: ScopeModel,
    fresh: ClientSession,
    hello: Hello,
    client_pid: u32,
    gate: u32,
    session: ClientSession,
    answer: ServeAction,
    payload: Seq<u8>,
    asked: ServeAction,
    number: u32,
    jpeg: Seq<u8>,
    sent: ServeAction,
    deadline: Option<ServeAction>,
    seq: u64,
    now_ms: i64,
    report: Option<Envelope>,
    seq_after: u64,
)
    requires
        opens_for(server, state, fresh),
        hello.protocol == IPC_PROTOCOL_VERSION,
        hello.nonce@ == server.nonce@,
        gate == 0 || client_pid == gate,
        hello_leads_to(fresh, Ok(hello), client_pid, gate, session, answer),
        frame_leads_to(session, GET_CONFIG, payload, asked),
        frame_leads_to(session, SCREENSHOT, le32(number) + jpeg, sent),
        deadline_leads_to(session, deadline),
        announces(session, state, seq, now_ms, client_pid, report, seq_after),
    ensures
        answer is AnnounceAndWelcome,
        session.welcome.session_id == state.session_id(),
        session.welcome.config == server.user_actor_config,
        asked is SendWelcome,
        sent matches ServeAction::Forward(frame) && frame.seq == number && frame.jpeg@ == jpeg,
        deadline is None,
        report is Some <==> server.wire_reports,
        report matches Some(envelope) ==> {
            &&& envelope.study == state.study_id
            &&& envelope.session == state.session_id()
            &&& envelope.ts == now_ms
            &&& envelope.seq == seq
            &&& seq_after == following(seq)
            &&& (envelope.data matches Payload::UserActorStarted(data) && data.module_version@
                == hello.module_version@ && (if client_pid == 0 {
                data.pid is None
            } else {
                data.pid == Some(client_pid)
            }))
        },
{
    lemma_screenshot_bytes(number, jpeg);
}

/// An impostor stays a stranger: with the wrong secret, the wrong version or from
/// another process than the expected one it is turned away, is not announced and
/// not signed off, and is closed at the deadline; whatever it sends but a hello
/// is refused.
pub proof fn law_an_impostor_stays_a_stranger(
    server: IpcServerAdapter,
    state: ScopeModel,
    fresh: ClientSession,
    hello: Hello,
    client_pid: u32,
    gate: u32,
    session: ClientSession,
    answer: ServeAction,
    message_type: u16,
    payload: Seq<u8>,
    sent: ServeAction,
    deadline: Option<ServeAction>,
    seq: u64,
    now_ms: i64,
    report: Option<Envelope>,
    seq_after: u64,
    reason: Option<String>,
    last_report: Option<Envelope>,
    last_seq: u64,
)
    requires
        opens_for(server, state, fresh),
        hello.protocol != IPC_PROTOCOL_VERSION || hello.nonce@ != server.nonce@ || (gate != 0
            && client_pid != gate),
        hello_leads_to(fresh, Ok(hello), client_pid, gate, session, answer),
        message_type != HELLO,
        frame_leads_to(session, message_type, payload, sent),
        deadline_leads_to(session, deadline),
        announces(session, state, seq, now_ms, client_pid, report, seq_after),
        signs_off(session, state, seq, now_ms, reason, last_report, last_seq),
    ensures
        answer is RefuseAndClose,
        sent is Refuse,
        deadline matches Some(action) && action is RefuseAndClose,
        report is None && seq_after == seq,
        last_report is None && last_seq == seq,
{
}

/// A client that was announced is signed off with the reason that is given.
pub proof fn law_announced_clients_are_signed_off(
    session: ClientSession,
    state: ScopeModel,
    seq: u64,
    now_ms: i64,
    client_pid: u32,
    report: Option<Envelope>,
    seq_after: u64,
    reason: Option<String>,
    last_ms: i64,
    last_report: Option<Envelope>,
    last_seq: u64,
)
    requires
        announces(session, state, seq, now_ms, client_pid, report, seq_after),
        signs_off(session, state, seq_after, last_ms, reason, last_report, last_seq),
    ensures
        report is Some <==> last_report is Some,
        last_report matches Some(envelope) ==> {
            &&& envelope.ts == last_ms
            &&& envelope.seq == following(seq)
            &&& envelope.study == state.study_id
            &&& envelope.session == state.session_id()
            &&& (envelope.data matches Payload::UserActorStopped(data) && data.reason == reason)
        },
{
}

// ---- The broker ----

/// The startup connection is attempted exactly as often as allowed: while fewer
/// attempts failed another is made; after the last one it gives up, tells how
/// many there were and the words of the last failure.
pub proof fn law_the_dial_keeps_to_its_attempts(
    config: BrokerConfig,
    attempts: u32,
    steps: Seq<Dial>,
    errors: Seq<String>,
    action: DialAction,
)
    requires
        steps.len() == errors.len() + 1,
        errors.len() <= attempts,
        dial_begins(config, attempts, Ok(steps[0])),
        forall|k: int|
            0 <= k < errors.len() ==> dial_fails(steps[k], #[trigger] errors[k], steps[k + 1]),
        dials(steps.last(), action),
    ensures
        action is Connect <==> errors.len() < attempts,
        action matches DialAction::GiveUp(error) ==> (error matches ConnectError::RetriesExhausted {
            attempts: tried,
            last_error,
        } && tried == attempts && errors.len() == tried && (errors.len() > 0 ==> last_error@
            == errors.last()@)),
{
    lemma_failures_are_counted(steps, errors, errors.len() as int);
    if errors.len() > 0 {
        let last = errors.len() - 1;
        assert(dial_fails(steps[last], errors[last], steps[last + 1]));
    }
}

/// Failures are counted one by one.
proof fn lemma_failures_are_counted(steps: Seq<Dial>, errors: Seq<String>, count: int)
    requires
        steps.len() == errors.len() + 1,
        steps[0].made == 0,
        errors.len() <= steps[0].attempts,
        forall|k: int|
            0 <= k < errors.len() ==> dial_fails(steps[k], #[trigger] errors[k], steps[k + 1]),
        0 <= count <= errors.len(),
    ensures
        steps[count].made == count,
        steps[count].attempts == steps[0].attempts,
    decreases count,
{
    if count > 0 {
        lemma_failures_are_counted(steps, errors, count - 1);
        assert(dial_fails(steps[count - 1], errors[count - 1], steps[count]));
    }
}

/// Each channel has the subject that is configured for it, before and after any
/// send; exactly the sends that the connection refused count as lost; and a
/// publish succeeds exactly when it was sent.
pub proof fn law_channels_keep_their_subjects(
    config: BrokerConfig,
    brokers: Seq<NatsBrokerAdapter>,
    outcomes: Seq<crate::adapters::broker_nats::SendOutcome>,
    results: Seq<Result<(), BrokerError>>,
)
    requires
        brokers.len() == outcomes.len() + 1,
        results.len() == outcomes.len(),
        outcomes.len() <= u64::MAX,
        serves(config, brokers[0]),
        forall|k: int|
            0 <= k < outcomes.len() ==> settles(
                brokers[k],
                #[trigger] outcomes[k],
                brokers[k + 1],
                results[k],
            ),
    ensures
        brokers.last().subject_of(Channel::Control) == config.control_channel@,
        brokers.last().subject_of(Channel::Event) == config.event_channel@,
        brokers.last().loss == outcomes.filter(
            |outcome: crate::adapters::broker_nats::SendOutcome| outcome is Lost,
        ).len(),
        forall|k: int|
            0 <= k < outcomes.len() ==> ((#[trigger] results[k]) is Ok <==> outcomes[k] is Sent),
    decreases outcomes.len(),
{
    reveal(Seq::filter);
    assert forall|k: int| 0 <= k < outcomes.len() implies ((#[trigger] results[k]) is Ok
        <==> outcomes[k] is Sent) by {
        assert(settles(brokers[k], outcomes[k], brokers[k + 1], results[k]));
    }
    if outcomes.len() > 0 {
        let last = outcomes.len() - 1;
        let front = outcomes.drop_last();
        let lost = |outcome: crate::adapters::broker_nats::SendOutcome| outcome is Lost;
        assert forall|k: int| 0 <= k < front.len() implies settles(
            brokers.drop_last()[k],
            #[trigger] front[k],
            brokers.drop_last()[k + 1],
            results.drop_last()[k],
        ) by {
            assert(front[k] == outcomes[k]);
        }
        law_channels_keep_their_subjects(
            config,
            brokers.drop_last(),
            front,
            results.drop_last(),
        );
        assert(settles(brokers[last], outcomes[last], brokers[last + 1], results[last]));
        front.lemma_filter_len(lost);
        assert(brokers.drop_last().last() == brokers[last]);
    }
}

/// What was published on a channel is listed for it, in order, and nothing else.
pub proof fn law_a_channel_lists_its_own(published: Seq<(Channel, Envelope)>, channel: Channel)
    ensures
        on_channel(published, channel) == published.filter(
            |sent: (Channel, Envelope)| sent.0 == channel,
        ).map_values(|sent: (Channel, Envelope)| sent.1),
    decreases published.len(),
{
    reveal(Seq::filter);
    let mine = |sent: (Channel, Envelope)| sent.0 == channel;
    let what = |sent: (Channel, Envelope)| sent.1;
    if published.len() > 0 {
        law_a_channel_lists_its_own(published.drop_last(), channel);
    }
    assert(on_channel(published, channel) =~= published.filter(mine).map_values(what));
}

/// A publish through several sinks succeeds exactly when one of them took the
/// message.
pub proof fn law_one_sink_is_enough(
    outcomes: Seq<Result<(), BrokerError>>,
    result: Result<(), BrokerError>,
)
    requires
        tee_settles(outcomes, result),
    ensures
        result is Ok <==> exists|at: int| 0 <= at < outcomes.len() && (#[trigger] outcomes[at]) is Ok,
{
}

/// The console prints every envelope but signs of life, and counts each of the
/// two kinds.
pub proof fn law_the_console_counts_what_it_prints(
    before: ConsoleBroker,
    channel: Channel,
    envelope: Envelope,
    after: ConsoleBroker,
    line: Option<String>,
)
    requires
        prints(before, channel, envelope, after, line),
        before.printed < u64::MAX,
        before.keepalives < u64::MAX,
    ensures
        line is Some <==> !(envelope.event_type is ControlKeepalive),
        line is Some ==> after.printed == before.printed + 1 && after.keepalives == before.keepalives,
        line is None ==> after.keepalives == before.keepalives + 1 && after.printed == before.printed,
{
}

/// Tokens with dots between them are a subject exactly when each of them is a
/// token by itself.
pub proof fn law_subjects_are_tokens_between_dots(tokens: Seq<Seq<char>>)
    requires
        tokens.len() > 0,
        forall|i: int| 0 <= i < tokens.len() ==> !(#[trigger] tokens[i]).contains('.'),
    ensures
        is_subject(joined(tokens, seq!['.'])) <==> forall|i: int|
            0 <= i < tokens.len() ==> is_token(#[trigger] tokens[i]),
{
    law_splitting_undoes_joining(tokens, '.');
}

// ---- Uploads ----

/// The bytes of some chunks.
pub open spec fn bytes_in(chunks: Seq<usize>) -> nat
    decreases chunks.len(),
{
    if chunks.len() == 0 {
        0
    } else {
        bytes_in(chunks.drop_last()) + chunks.last() as nat
    }
}

/// An upload counts every byte: a chunk is delivered exactly when the bytes up to
/// its end are within the cap; once they are not, the upload is marked, and its
/// failure is told as the cap's, with the cap and the bytes read. An upload
/// within the cap that fails is told as the transport's failure.
pub proof fn law_uploads_keep_to_the_cap(
    path: String,
    cap: u64,
    length: u64,
    streams: Seq<CappedStream>,
    chunks: Seq<usize>,
    delivered: Seq<bool>,
    detail: String,
    result: Result<(), UploadError>,
)
    requires
        upload_begins(path, cap, OpenOutcome::Opened(length), Ok(streams[0])),
        streams.len() == chunks.len() + 1,
        delivered.len() == chunks.len(),
        bytes_in(chunks) <= u64::MAX,
        forall|k: int|
            0 <= k < chunks.len() ==> takes_chunk(
                streams[k],
                #[trigger] chunks[k],
                streams[k + 1],
                delivered[k],
            ),
        upload_ends(
            streams.last(),
            crate::adapters::upload::SendOutcome::Failed(detail),
            result,
        ),
    ensures
        length <= cap,
        streams.last().total_read == bytes_in(chunks),
        streams.last().limit == cap,
        streams.last().overflowed <==> bytes_in(chunks) > cap,
        chunks.len() > 0 ==> (delivered.last() <==> bytes_in(chunks) <= cap),
        bytes_in(chunks) > cap ==> (result matches Err(UploadError::TooLarge { limit, read }) && limit
            == cap && read == bytes_in(chunks)),
        bytes_in(chunks) <= cap ==> (result matches Err(UploadError::Transport(words)) && words@
            == detail@),
{
    lemma_stream_counts(streams, chunks, delivered, chunks.len() as int);
    assert(chunks.take(chunks.len() as int) =~= chunks);
    if chunks.len() > 0 {
        let last = chunks.len() - 1;
        lemma_stream_counts(streams, chunks, delivered, last);
        assert(takes_chunk(streams[last], chunks[last], streams[last + 1], delivered[last]));
        assert(chunks.take(last) =~= chunks.drop_last());
    }
}

/// A stream has counted the chunks so far.
proof fn lemma_stream_counts(
    streams: Seq<CappedStream>,
    chunks: Seq<usize>,
    delivered: Seq<bool>,
    count: int,
)
    requires
        streams.len() == chunks.len() + 1,
        delivered.len() == chunks.len(),
        streams[0].total_read == 0,
        !streams[0].overflowed,
        bytes_in(chunks) <= u64::MAX,
        forall|k: int|
            0 <= k < chunks.len() ==> takes_chunk(
                streams[k],
                #[trigger] chunks[k],
                streams[k + 1],
                delivered[k],
            ),
        0 <= count <= chunks.len(),
    ensures
        streams[count].total_read == bytes_in(chunks.take(count)),
        streams[count].limit == streams[0].limit,
        streams[count].overflowed <==> bytes_in(chunks.take(count)) > streams[0].limit,
        bytes_in(chunks.take(count)) <= bytes_in(chunks),
    decreases count,
{
    lemma_bytes_grow(chunks, count);
    if count > 0 {
        lemma_stream_counts(streams, chunks, delivered, count - 1);
        assert(takes_chunk(
            streams[count - 1],
            chunks[count - 1],
            streams[count],
            delivered[count - 1],
        ));
        assert(chunks.take(count).drop_last() =~= chunks.take(count - 1));
        assert(chunks.take(count).last() == chunks[count - 1]);
    }
}

/// Fewer chunks hold no more bytes.
proof fn lemma_bytes_grow(chunks: Seq<usize>, count: int)
    requires
        0 <= count <= chunks.len(),
    ensures
        bytes_in(chunks.take(count)) <= bytes_in(chunks),
    decreases chunks.len(),
{
    if count == chunks.len() {
        assert(chunks.take(count) =~= chunks);
    } else {
        lemma_bytes_grow(chunks.drop_last(), count);
        assert(chunks.drop_last().take(count) =~= chunks.take(count));
    }
}

/// A file over the cap is not begun, and one within it is.
pub proof fn law_large_files_are_not_begun(
    path: String,
    cap: u64,
    length: u64,
    begun: Result<CappedStream, UploadError>,
)
    requires
        upload_begins(path, cap, OpenOutcome::Opened(length), begun),
    ensures
        begun is Ok <==> length <= cap,
        begun matches Err(error) ==> (error matches UploadError::TooLarge { limit, read } && limit == cap
            && read == length),
{
}

// ---- The schedule ----

/// The deadline comes when the planned time is over, to the second: with the
/// delay the session lasts at least as long as planned, and less than a second
/// longer than that; a session without a plan has no deadline, and one whose time
/// is over has it now.
pub proof fn law_the_deadline_ends_the_planned_time(state: ScopeModel, now_ms: i64)
    requires
        state.sessions.len() > 0,
    ensures
        delay_secs(state, now_ms) is Some <==> state.sessions.last().scheduled_duration_secs is Some,
        state.sessions.last().scheduled_duration_secs matches Some(planned) ==> {
            let elapsed = now_ms - state.sessions.last().started_at_ms;
            let delay = delay_secs(state, now_ms)->0;
            &&& elapsed <= 0 ==> delay == planned
            &&& 0 <= elapsed < 1000 * planned ==> 0 <= elapsed + 1000 * delay - 1000 * planned < 1000
            &&& elapsed >= 1000 * planned ==> delay == 0
        },
{
}

/// The sign of life goes out on the control channel, and carries the session's
/// identity and the counter's number.
pub proof fn law_signs_of_life_go_to_control(
    state: ScopeModel,
    seq: u64,
    now_ms: i64,
    beat: (Channel, Envelope),
    seq_after: u64,
)
    requires
        beats(state, seq, now_ms, beat, seq_after),
    ensures
        beat.0 is Control,
        beat.1.data is ControlKeepalive,
        beat.1.study == state.study_id,
        beat.1.session == state.session_id(),
        beat.1.ts == now_ms,
        beat.1.seq == seq,
        seq_after == following(seq),
{
}

} // verus!
