//! What is scored, counted and reported over a session's events.

use vstd::prelude::*;

use crate::app::event::{AgentBusEvent, SandboxEvent};
use crate::domain::drop_copy::lemma_decimal_digits;
use crate::domain::marker::{bare_name, dot_exe};
use crate::domain::scope::ScopeModel;
use crate::domain::score::{interpreters, ScoreWeights};
use crate::plugins::event_reporter::{passes_on, relays};
use crate::plugins::scoring::{event_score, scores};
use crate::plugins::screenshot_intake::{
    begins_frame, handles_frame, takes_in, wire_name, FrameAction, FrameJob, FramePhase, FrameRun,
    ScreenshotIntakePlugin,
};
use crate::plugins::statistics::{bus_counted, counted, summary, zero_counts, StatisticsSnapshot};
use crate::plugins::wire::following;
use crate::ports::Directory;
use crate::protocol::config::{EventVerbosity, ScreenshotsConfig};
use crate::protocol::nats::Envelope;
use crate::protocol::payload::Payload;
use crate::text::{decimal_digits, joined, lower_ascii, split_on};
use crate::text_laws::law_splitting_undoes_joining;

verus! {

// ---- Scores ----

/// The interpreters are written without `.exe`, in lower case.
pub proof fn lemma_interpreters_are_bare(at: int)
    requires
        0 <= at < interpreters().len(),
    ensures
        bare_name(interpreters()[at]) == interpreters()[at],
        bare_name(interpreters()[at] + dot_exe()) == interpreters()[at],
{
    reveal_strlit("cmd");
    reveal_strlit("powershell");
    reveal_strlit("pwsh");
    reveal_strlit("wscript");
    reveal_strlit("cscript");
    reveal_strlit("mshta");
    reveal_strlit("rundll32");
    reveal_strlit("regsvr32");
    let name = interpreters()[at];
    if name.len() >= 4 {
        let tail = name.skip(name.len() - 4);
        assert(lower_ascii(tail)[0] == crate::text::ascii_lower(name[name.len() - 4]));
        assert(dot_exe()[0] == '.');
    }
    let longer = name + dot_exe();
    assert(longer.skip(longer.len() - 4) =~= dot_exe());
    assert(lower_ascii(dot_exe()) =~= dot_exe());
    assert(longer.take(longer.len() - 4) =~= name);
}

/// An interpreter that enters the scope scores what is set for interpreters,
/// written in any case, with or without `.exe`; a drop scores what is set for
/// drops; any other program, and any other event, scores nothing.
pub proof fn law_what_scores(weights: ScoreWeights, event: AgentBusEvent, at: int)
    ensures
        event is DropObserved ==> event_score(weights, event) == weights.drop_observed,
        event matches AgentBusEvent::ProcessEnteredScope { pid, name } ==> {
            &&& 0 <= at < interpreters().len() && (lower_ascii(name@) == interpreters()[at]
                || lower_ascii(name@) == interpreters()[at] + dot_exe()) ==> event_score(weights, event)
                == weights.cli_started
            &&& (forall|i: int|
                0 <= i < interpreters().len() ==> lower_ascii(name@) != #[trigger] interpreters()[i]
                    && lower_ascii(name@) != interpreters()[i] + dot_exe()) ==> event_score(
                weights,
                event,
            ) == 0
        },
        !(event is DropObserved) && !(event is ProcessEnteredScope) ==> event_score(weights, event) == 0,
{
    if let AgentBusEvent::ProcessEnteredScope { pid, name } = event {
        let low = lower_ascii(name@);
        if 0 <= at < interpreters().len() {
            lemma_interpreters_are_bare(at);
            assert(interpreters().contains(interpreters()[at]));
        }
        if interpreters().contains(bare_name(low)) {
            let i = choose|i: int| 0 <= i < interpreters().len() && interpreters()[i] == bare_name(low);
            assert(interpreters()[i] == bare_name(low));
            if bare_name(low) != low {
                let tail = low.skip(low.len() - 4);
                assert(lower_ascii(low) =~= low);
                assert(lower_ascii(tail) =~= tail);
                assert(low =~= low.take(low.len() - 4) + tail);
                assert(low == interpreters()[i] + dot_exe());
            }
        }
    }
}

/// Is this one of the programs that malware commonly runs its commands with?
pub open spec fn runs_commands(program: Seq<char>) -> bool {
    ||| program == "cmd"@
    ||| program == "powershell"@
    ||| program == "pwsh"@
    ||| program == "wscript"@
    ||| program == "cscript"@
    ||| program == "mshta"@
    ||| program == "rundll32"@
    ||| program == "regsvr32"@
}

/// Each of these programs scores, however its name is written and with or without
/// its extension, and no other program does.
pub proof fn law_programs_that_run_commands_score(
    weights: ScoreWeights,
    pid: u32,
    name: String,
    program: Seq<char>,
)
    requires
        lower_ascii(name@) == program || lower_ascii(name@) == program + dot_exe(),
        bare_name(program) == program,
    ensures
        event_score(weights, AgentBusEvent::ProcessEnteredScope { pid, name }) == if runs_commands(
            program,
        ) {
            weights.cli_started
        } else {
            0
        },
{
    let low = lower_ascii(name@);
    let list = interpreters();
    if low == program + dot_exe() {
        assert(low.skip(low.len() - 4) =~= dot_exe());
        assert(low.take(low.len() - 4) =~= program);
        assert(lower_ascii(dot_exe()) =~= dot_exe());
    }
    assert(bare_name(low) == program);
    assert(list[0] == "cmd"@ && list[1] == "powershell"@ && list[2] == "pwsh"@ && list[3]
        == "wscript"@);
    assert(list[4] == "cscript"@ && list[5] == "mshta"@ && list[6] == "rundll32"@ && list[7]
        == "regsvr32"@);
    if list.contains(program) {
        let i = choose|i: int| 0 <= i < list.len() && list[i] == program;
        assert(list.len() == 8);
        assert(runs_commands(program));
    }
}

/// Over any run of events the score is the largest that one of them scores, 0
/// where there is none; a raise is published exactly when the score grows, and
/// tells the new score.
pub proof fn law_raises_follow_the_maximum(
    weights: ScoreWeights,
    events: Seq<AgentBusEvent>,
    held: Seq<u32>,
    raised: Seq<Option<AgentBusEvent>>,
)
    requires
        held.len() == events.len() + 1,
        raised.len() == events.len(),
        held[0] == 0,
        forall|k: int|
            0 <= k < events.len() ==> scores(
                weights,
                held[k],
                #[trigger] events[k],
                held[k + 1],
                raised[k],
            ),
    ensures
        forall|k: int|
            0 <= k < events.len() ==> event_score(weights, #[trigger] events[k]) <= held.last(),
        held.last() == 0 || exists|k: int|
            0 <= k < events.len() && event_score(weights, #[trigger] events[k]) == held.last(),
        forall|k: int|
            0 <= k < events.len() ==> {
                &&& (#[trigger] raised[k]) is Some <==> held[k + 1] > held[k]
                &&& raised[k] matches Some(event) ==> event == AgentBusEvent::SessionScoreRaised {
                    score: held[k + 1],
                }
                &&& held[k + 1] >= held[k]
            },
    decreases events.len(),
{
    assert forall|k: int| 0 <= k < events.len() implies {
        &&& (#[trigger] raised[k]) is Some <==> held[k + 1] > held[k]
        &&& raised[k] matches Some(event) ==> event == AgentBusEvent::SessionScoreRaised {
            score: held[k + 1],
        }
        &&& held[k + 1] >= held[k]
    } by {
        assert(scores(weights, held[k], events[k], held[k + 1], raised[k]));
    }
    if events.len() > 0 {
        let front = events.drop_last();
        let fewer = held.drop_last();
        let earlier = raised.drop_last();
        assert forall|k: int| 0 <= k < front.len() implies scores(
            weights,
            fewer[k],
            #[trigger] front[k],
            fewer[k + 1],
            earlier[k],
        ) by {
            assert(front[k] == events[k]);
            assert(scores(weights, held[k], events[k], held[k + 1], raised[k]));
        }
        law_raises_follow_the_maximum(weights, front, fewer, earlier);
        let last = events.len() - 1;
        assert(scores(weights, held[last], events[last], held[last + 1], raised[last]));
        assert(fewer.last() == held[last]);
        assert forall|k: int| 0 <= k < events.len() implies event_score(weights, #[trigger] events[k])
            <= held.last() by {
            if k < last {
                assert(front[k] == events[k]);
            }
        }
        if held.last() != 0 {
            if held.last() == fewer.last() {
                let k = choose|k: int|
                    0 <= k < front.len() && event_score(weights, #[trigger] front[k]) == fewer.last();
                assert(events[k] == front[k]);
            } else {
                assert(event_score(weights, events[last]) == held.last());
            }
        }
    }
}

// ---- Counts ----

/// Something that the counters take in.
pub ghost enum Seen {
    Pipeline(SandboxEvent),
    Bus(AgentBusEvent),
}

/// The counters after it.
pub open spec fn count_in(counts: StatisticsSnapshot, seen: Seen) -> StatisticsSnapshot {
    match seen {
        Seen::Pipeline(event) => counted(counts, event),
        Seen::Bus(event) => bus_counted(counts, event),
    }
}

/// Each counter holds how many of its events were seen since the boot, and no
/// other: source events; frames; ticks; deadlines, stops and saves; drops;
/// entries; exits.
pub proof fn law_counters_count(seen: Seq<Seen>, counts: Seq<StatisticsSnapshot>)
    requires
        counts.len() == seen.len() + 1,
        counts[0] == zero_counts(),
        seen.len() <= u32::MAX,
        forall|k: int|
            0 <= k < seen.len() ==> counts[k + 1] == count_in(counts[k], #[trigger] seen[k]),
    ensures
        ({
            let after = counts.last();
            &&& after.source_events == seen.filter(
                |it: Seen| it matches Seen::Pipeline(event) && event is Source,
            ).len()
            &&& after.screenshots == seen.filter(
                |it: Seen| it matches Seen::Pipeline(event) && event is ScreenshotReceived,
            ).len()
            &&& after.ticks == seen.filter(
                |it: Seen| it matches Seen::Pipeline(event) && event is StatsTick,
            ).len()
            &&& after.lifecycle_events == seen.filter(
                |it: Seen|
                    it matches Seen::Pipeline(event) && (event is SessionDeadline || event is ServiceStop
                        || event is PersistTick),
            ).len()
            &&& after.drops_observed == seen.filter(
                |it: Seen| it matches Seen::Bus(event) && event is DropObserved,
            ).len()
            &&& after.scope_entered == seen.filter(
                |it: Seen| it matches Seen::Bus(event) && event is ProcessEnteredScope,
            ).len()
            &&& after.scope_exited == seen.filter(
                |it: Seen| it matches Seen::Bus(event) && event is ProcessExitedScope,
            ).len()
        }),
    decreases seen.len(),
{
    reveal(Seq::filter);
    if seen.len() > 0 {
        let front = seen.drop_last();
        let fewer = counts.drop_last();
        assert forall|k: int| 0 <= k < front.len() implies fewer[k + 1] == count_in(
            fewer[k],
            #[trigger] front[k],
        ) by {
            assert(front[k] == seen[k]);
            assert(counts[k + 1] == count_in(counts[k], seen[k]));
        }
        law_counters_count(front, fewer);
        let last = seen.len() - 1;
        assert(counts[last + 1] == count_in(counts[last], seen[last]));
        assert(fewer.last() == counts[last]);
        front.lemma_filter_len(|it: Seen| it matches Seen::Pipeline(event) && event is Source);
        front.lemma_filter_len(
            |it: Seen| it matches Seen::Pipeline(event) && event is ScreenshotReceived,
        );
        front.lemma_filter_len(|it: Seen| it matches Seen::Pipeline(event) && event is StatsTick);
        front.lemma_filter_len(
            |it: Seen|
                it matches Seen::Pipeline(event) && (event is SessionDeadline || event is ServiceStop
                    || event is PersistTick),
        );
        front.lemma_filter_len(|it: Seen| it matches Seen::Bus(event) && event is DropObserved);
        front.lemma_filter_len(|it: Seen| it matches Seen::Bus(event) && event is ProcessEnteredScope);
        front.lemma_filter_len(|it: Seen| it matches Seen::Bus(event) && event is ProcessExitedScope);
    }
}

/// A summary comes with each tick and with nothing else; it tells the study, the
/// session and the counters with that tick in them.
pub proof fn law_ticks_are_summed_up(
    state: ScopeModel,
    counts: StatisticsSnapshot,
    event: SandboxEvent,
)
    ensures
        summary(state, counts, event) is Some <==> event is StatsTick,
        summary(state, counts, event) matches Some(report) ==> {
            &&& report.study_id == state.study_id
            &&& state.sessions.len() > 0 ==> report.session_id == state.sessions.last().id
            &&& report.snapshot == counts
        },
{
}

// ---- Relayed events ----

/// A drop's sighting and its close go out with the path that the bus carried,
/// and the death of the scope goes out; no other bus event does. A message
/// carries the study, the session, the time and the counter's number.
pub proof fn law_bus_events_are_relayed_unchanged(
    state: ScopeModel,
    seq: u64,
    now_ms: i64,
    event: AgentBusEvent,
    envelope: Option<Envelope>,
    seq_after: u64,
)
    requires
        relays(state, seq, now_ms, event, envelope, seq_after),
    ensures
        envelope is Some <==> event is DropObserved || event is DropClosed || event is ScopeDied,
        envelope matches Some(message) ==> {
            &&& message.study == state.study_id
            &&& state.sessions.len() > 0 ==> message.session == state.sessions.last().id
            &&& message.ts == now_ms
            &&& message.seq == seq
            &&& seq_after == following(seq)
            &&& event matches AgentBusEvent::DropObserved { path, pid } ==> (
            message.data matches Payload::DropObserved(data) && data.path@ == path@ && data.pid == pid)
            &&& event matches AgentBusEvent::DropClosed { path } ==> (
            message.data matches Payload::DropClosed(data) && data.path@ == path@)
            &&& event is ScopeDied ==> message.data is ScopeDied
        },
        envelope is None ==> seq_after == seq,
{
}

/// Source events go out exactly under full verbosity, with their own payload.
pub proof fn law_full_verbosity_passes_sources_on(
    verbosity: EventVerbosity,
    state: ScopeModel,
    seq: u64,
    now_ms: i64,
    event: SandboxEvent,
    envelope: Option<Envelope>,
    seq_after: u64,
)
    requires
        passes_on(verbosity, state, seq, now_ms, event, envelope, seq_after),
    ensures
        envelope is Some <==> verbosity is Full && event is Source,
        envelope matches Some(message) ==> {
            &&& (event matches SandboxEvent::Source(source) && message.data == source.payload())
            &&& message.study == state.study_id
            &&& state.sessions.len() > 0 ==> message.session == state.sessions.last().id
            &&& message.ts == now_ms
            &&& message.seq == seq
            &&& seq_after == following(seq)
        },
        envelope is None ==> seq_after == seq,
{
}

// ---- Frames ----

/// A frame is taken in exactly while capture is on and the quota lasts; its
/// report tells its number and its size, and the job carries the very frame.
pub proof fn law_frames_are_taken_in_whole(
    before: ScreenshotIntakePlugin,
    state: ScopeModel,
    seq: u64,
    now_ms: i64,
    event: SandboxEvent,
    after: ScreenshotIntakePlugin,
    seq_after: u64,
    event_after: SandboxEvent,
    job: Option<(Envelope, FrameJob)>,
)
    requires
        before.wf(),
        takes_in(before, state, seq, now_ms, event, after, seq_after, event_after, job),
    ensures
        job is Some <==> event is ScreenshotReceived && before.capture_enabled && before.accepted
            < before.config.max_per_session,
        job is Some ==> after.accepted == before.accepted + 1,
        job is None ==> after == before && event_after == event && seq_after == seq,
        job matches Some((report, work)) ==> {
            &&& (event matches SandboxEvent::ScreenshotReceived(frame) && work.frame == frame && (
            report.data matches Payload::ScreenshotReceived(data) && data.seq == frame.seq
                && data.size_bytes == frame.jpeg@.len() as u64))
            &&& work.study_id == state.study_id
            &&& report.study == state.study_id
            &&& report.session == work.session_id
            &&& report.ts == now_ms
            &&& report.seq == seq
            &&& seq_after == following(seq)
        },
        after.config == before.config,
        after.capture_enabled == before.capture_enabled,
{
}

/// The quota holds over any run of events: no more frames become jobs than the
/// session may have.
pub proof fn law_the_quota_holds(
    plugins: Seq<ScreenshotIntakePlugin>,
    states: Seq<ScopeModel>,
    seqs: Seq<u64>,
    now_ms: Seq<i64>,
    events: Seq<SandboxEvent>,
    left: Seq<SandboxEvent>,
    jobs: Seq<Option<(Envelope, FrameJob)>>,
)
    requires
        plugins.len() == events.len() + 1,
        seqs.len() == events.len() + 1,
        states.len() == events.len(),
        now_ms.len() == events.len(),
        left.len() == events.len(),
        jobs.len() == events.len(),
        plugins[0].accepted == 0,
        forall|k: int|
            0 <= k < events.len() ==> takes_in(
                plugins[k],
                states[k],
                seqs[k],
                now_ms[k],
                #[trigger] events[k],
                plugins[k + 1],
                seqs[k + 1],
                left[k],
                jobs[k],
            ),
    ensures
        plugins.last().config == plugins[0].config,
        plugins.last().accepted == jobs.filter(
            |job: Option<(Envelope, FrameJob)>| job is Some,
        ).len(),
        jobs.filter(|job: Option<(Envelope, FrameJob)>| job is Some).len()
            <= plugins[0].config.max_per_session,
    decreases events.len(),
{
    reveal(Seq::filter);
    if events.len() > 0 {
        let last = events.len() - 1;
        let front = events.drop_last();
        assert forall|k: int| 0 <= k < front.len() implies takes_in(
            plugins.drop_last()[k],
            states.drop_last()[k],
            seqs.drop_last()[k],
            now_ms.drop_last()[k],
            #[trigger] front[k],
            plugins.drop_last()[k + 1],
            seqs.drop_last()[k + 1],
            left.drop_last()[k],
            jobs.drop_last()[k],
        ) by {
            assert(front[k] == events[k]);
        }
        law_the_quota_holds(
            plugins.drop_last(),
            states.drop_last(),
            seqs.drop_last(),
            now_ms.drop_last(),
            front,
            left.drop_last(),
            jobs.drop_last(),
        );
        assert(takes_in(
            plugins[last],
            states[last],
            seqs[last],
            now_ms[last],
            events[last],
            plugins[last + 1],
            seqs[last + 1],
            left[last],
            jobs[last],
        ));
        assert(plugins.drop_last().last() == plugins[last]);
    }
}

/// One frame, one file: the bytes written are the frame's; the name under which
/// they are written is the one uploaded and the one removed, in the same
/// directory; the upload carries the study, the session and the size of the
/// frame, and its report the frame's number.
pub proof fn law_one_frame_one_file(
    config: ScreenshotsConfig,
    job: FrameJob,
    begun: (FrameRun, FrameAction),
    runs: Seq<FrameRun>,
    seqs: Seq<u64>,
    now_ms: Seq<i64>,
    actions: Seq<FrameAction>,
)
    requires
        begins_frame(config, job, Some(begun)),
        config.upload_uri is Some,
        runs.len() == 5,
        seqs.len() == 5,
        now_ms.len() == 4,
        actions.len() == 4,
        forall|k: int|
            0 <= k < 4 ==> handles_frame(
                config,
                runs[k],
                true,
                seqs[k],
                now_ms[k],
                runs[k + 1].phase,
                #[trigger] actions[k],
                seqs[k + 1],
            ) && runs[k + 1] == (FrameRun { phase: runs[k + 1].phase, ..runs[k] }),
        runs[0] == begun.0,
    ensures
        ({
            let write = if config.save {
                actions[0]
            } else {
                begun.1
            };
            let first: int = if config.save {
                1
            } else {
                0
            };
            &&& config.save ==> (begun.1 matches FrameAction::MakeDirectory(path) && path@ == config.path@)
            &&& (write matches FrameAction::Write { directory, name, jpeg } && {
                &&& jpeg@ == job.frame.jpeg@
                &&& config.save <==> directory is Configured
                &&& directory matches Directory::Configured(path) ==> path@ == config.path@
                &&& (actions[first] matches FrameAction::Upload(request) && {
                    &&& request.meta.path@ == name@
                    &&& request.meta.study == job.study_id
                    &&& request.meta.session == job.session_id
                    &&& request.directory == directory
                    &&& request.endpoint@ == config.upload_uri->0@
                    &&& request.max_blob_bytes == job.frame.jpeg@.len()
                })
                &&& (actions[first + 1] matches FrameAction::Publish(report) && {
                    &&& report.study == job.study_id
                    &&& report.session == job.session_id
                    &&& report.ts == now_ms[first + 1]
                    &&& report.seq == seqs[0]
                    &&& (report.data matches Payload::ScreenshotUploaded(data) && data.seq
                        == job.frame.seq)
                })
                &&& if config.save {
                    actions[first + 2] is Done
                } else {
                    actions[first + 2] matches FrameAction::Remove { directory: cleared, name: removed }
                        && cleared == directory && removed@ == name@
                }
            })
        }),
{
    assert(handles_frame(
        config,
        runs[0],
        true,
        seqs[0],
        now_ms[0],
        runs[1].phase,
        actions[0],
        seqs[1],
    ));
    assert(handles_frame(
        config,
        runs[1],
        true,
        seqs[1],
        now_ms[1],
        runs[2].phase,
        actions[1],
        seqs[2],
    ));
    assert(handles_frame(
        config,
        runs[2],
        true,
        seqs[2],
        now_ms[2],
        runs[3].phase,
        actions[2],
        seqs[3],
    ));
    assert(handles_frame(
        config,
        runs[3],
        true,
        seqs[3],
        now_ms[3],
        runs[4].phase,
        actions[3],
        seqs[4],
    ));
}

/// A frame's file name reads back: cut at its dashes it gives the session and the
/// frame's number, so no two frames share a name.
pub proof fn law_frame_names_read_back(session: u32, number: u32)
    ensures
        split_on(wire_name(session, number), '-') == seq![
            "screenshot"@,
            decimal_digits(session as nat),
            decimal_digits(number as nat) + ".jpeg"@,
        ],
{
    reveal_strlit("screenshot-");
    reveal_strlit("screenshot");
    reveal_strlit(".jpeg");
    let last = decimal_digits(number as nat) + ".jpeg"@;
    let parts = seq!["screenshot"@, decimal_digits(session as nat), last];
    lemma_decimal_digits(session as nat);
    lemma_decimal_digits(number as nat);
    assert(!"screenshot"@.contains('-'));
    assert(!decimal_digits(session as nat).contains('-'));
    assert(!last.contains('-')) by {
        if last.contains('-') {
            let i = choose|i: int| 0 <= i < last.len() && last[i] == '-';
            if i < decimal_digits(number as nat).len() {
                assert(decimal_digits(number as nat)[i] == '-');
            } else {
                assert(".jpeg"@[i - decimal_digits(number as nat).len()] == '-');
            }
        }
    }
    law_splitting_undoes_joining(parts, '-');
    assert(parts.drop_last() =~= seq!["screenshot"@, decimal_digits(session as nat)]);
    assert(parts.drop_last().drop_last() =~= seq!["screenshot"@]);
    reveal_with_fuel(joined, 4);
    assert(joined(parts, seq!['-']) =~= wire_name(session, number));
}

/// A frame is worked on exactly when it is to be saved or uploaded, and a
/// failure reports no upload.
pub proof fn law_failed_frames_report_nothing(
    config: ScreenshotsConfig,
    job: FrameJob,
    begun: Option<(FrameRun, FrameAction)>,
    run: FrameRun,
    seq: u64,
    now_ms: i64,
    after: FramePhase,
    action: FrameAction,
    seq_after: u64,
)
    requires
        begins_frame(config, job, begun),
        handles_frame(config, run, false, seq, now_ms, after, action, seq_after),
        !(run.phase is Publishing),
    ensures
        begun is Some <==> config.save || config.upload_uri is Some,
        !(action is Publish) && !(action is Upload) && !(action is Write),
        seq_after == seq,
{
}

} // verus!
