//! What a detonation runs, expects and reports, over its steps.

use vstd::prelude::*;

use crate::app::event::{AgentBusEvent, SandboxEvent, SourceEvent};
use crate::domain::command_line::{command_line, law_quoting_round_trips, splits_apart, Dialect};
use crate::domain::image_name::{divides, is_verbatim, last_segment, path_extension, prefix_len};
use crate::domain::marker::same_marker;
use crate::domain::path_laws::{law_extension_follows_the_dot, law_no_dot_no_extension};
use crate::domain::scope::ScopeModel;
use crate::plugins::target_launcher::{
    detonates, detonation_begins, detonation_step, meets, LaunchAction, LaunchEvent, LaunchPhase,
    TargetLauncherDeps, TargetLauncherPlugin,
};
use crate::plugins::wire::following;
use crate::ports::{LaunchOutcome, LaunchSpec};
use crate::protocol::payload::Payload;
use crate::text::{lower_ascii, split_on, views};
use crate::text_laws::law_splitting_undoes_joining;

verus! {

/// Three letters that spell `exe`, in any case.
pub open spec fn spells_exe(text: Seq<char>) -> bool {
    &&& text.len() == 3
    &&& text[0] == 'e' || text[0] == 'E'
    &&& text[1] == 'x' || text[1] == 'X'
    &&& text[2] == 'e' || text[2] == 'E'
}

/// Lowering spells `exe` for exactly those letters.
pub proof fn lemma_spells_exe(text: Seq<char>)
    ensures
        spells_exe(text) <==> lower_ascii(text) == seq!['e', 'x', 'e'],
{
    let low = lower_ascii(text);
    if spells_exe(text) {
        assert(low =~= seq!['e', 'x', 'e']);
    }
    if low == seq!['e', 'x', 'e'] {
        assert(low.len() == text.len());
        assert(low[0] == 'e' && low[1] == 'x' && low[2] == 'e');
        assert(low[0] == crate::text::ascii_lower(text[0]));
        assert(low[1] == crate::text::ascii_lower(text[1]));
        assert(low[2] == crate::text::ascii_lower(text[2]));
    }
}

/// A detonation starts the target itself, with its own arguments, exactly when
/// its extension spells `exe`; for any other extension, and for none, it asks
/// first which command opens that path.
pub proof fn law_only_programs_start_directly(
    deps: TargetLauncherDeps,
    phase: LaunchPhase,
    action: LaunchAction,
)
    requires
        detonation_begins(deps, phase, action),
    ensures
        match path_extension(deps.target.path@) {
            Some(extension) => spells_exe(extension) <==> phase is Expecting,
            None => !(phase is Expecting),
        },
        phase matches LaunchPhase::Expecting(spec) ==> {
            &&& spec.path@ == deps.target.path@
            &&& views(spec.args@) == views(deps.target.args@)
            &&& (action matches LaunchAction::Expect(AgentBusEvent::ExtendScopeExpectation { name })
                && name@ == last_segment(deps.target.path@))
        },
        !(phase is Expecting) ==> phase is Resolving && (action matches LaunchAction::Resolve(path) && path@
            == deps.target.path@),
{
    if path_extension(deps.target.path@) is Some {
        lemma_spells_exe(path_extension(deps.target.path@)->0);
    }
}

/// A path that ends in `.exe`, in any case, starts directly, whatever comes
/// before; one that ends in another extension is resolved, and so is one without
/// any dot.
pub proof fn law_the_extension_decides(
    deps: TargetLauncherDeps,
    phase: LaunchPhase,
    action: LaunchAction,
    before: Seq<char>,
    extension: Seq<char>,
)
    requires
        detonation_begins(deps, phase, action),
    ensures
        ({
            let path = deps.target.path@;
            &&& path == before.push('.') + extension
            &&& extension.len() > 0
            &&& forall|i: int|
                0 <= i < extension.len() ==> #[trigger] extension[i] != '.' && extension[i] != '/'
                    && extension[i] != '\\'
            &&& prefix_len(path) < before.len()
            &&& !divides(is_verbatim(path), before.last())
        }) ==> if spells_exe(extension) {
            phase matches LaunchPhase::Expecting(spec) && spec.path@ == deps.target.path@
        } else {
            action matches LaunchAction::Resolve(path) && path@ == deps.target.path@
        },
        !deps.target.path@.contains('.') ==> (action matches LaunchAction::Resolve(path) && path@
            == deps.target.path@),
{
    let path = deps.target.path@;
    law_only_programs_start_directly(deps, phase, action);
    if {
        &&& path == before.push('.') + extension
        &&& extension.len() > 0
        &&& forall|i: int|
            0 <= i < extension.len() ==> #[trigger] extension[i] != '.' && extension[i] != '/'
                && extension[i] != '\\'
        &&& prefix_len(path) < before.len()
        &&& !divides(is_verbatim(path), before.last())
    } {
        law_extension_follows_the_dot(before, extension);
    }
    if !path.contains('.') {
        law_no_dot_no_extension(path);
    }
}

/// The command that a document resolves to is what runs: its first word is the
/// program, its other words come first among the arguments, the configured ones
/// follow, and the program's image is what is expected.
pub proof fn law_the_resolved_command_runs(
    deps: TargetLauncherDeps,
    command: String,
    words: Seq<Seq<char>>,
    state: ScopeModel,
    seq: u64,
    now_ms: i64,
    after: LaunchPhase,
    action: LaunchAction,
    seq_after: u64,
)
    requires
        words.len() > 0,
        forall|i: int| 0 <= i < words.len() ==> !splits_apart(Dialect::Shell, #[trigger] words[i]),
        command@ == command_line(words),
        detonation_step(
            deps,
            LaunchPhase::Resolving,
            LaunchEvent::Resolved(Ok(command)),
            state,
            seq,
            now_ms,
            after,
            action,
            seq_after,
        ),
    ensures
        seq_after == seq,
        action matches LaunchAction::Expect(AgentBusEvent::ExtendScopeExpectation { name }) && name@
            == last_segment(words[0]),
        after matches LaunchPhase::Expecting(spec) && {
            &&& spec.path@ == words[0]
            &&& spec.args@.len() == words.len() - 1 + deps.target.args@.len()
            &&& forall|i: int|
                1 <= i < words.len() ==> (#[trigger] views(spec.args@)[i - 1]) == words[i]
            &&& forall|i: int|
                0 <= i < deps.target.args@.len() ==> (#[trigger] views(spec.args@)[words.len() - 1 + i])
                    == deps.target.args@[i]@
        },
{
    law_quoting_round_trips(Dialect::Shell, words);
    if let LaunchPhase::Expecting(spec) = after {
        let configured = views(deps.target.args@);
        assert(views(spec.args@) == words.skip(1) + configured);
        assert(views(spec.args@).len() == spec.args@.len());
        assert forall|i: int| 1 <= i < words.len() implies (#[trigger] views(spec.args@)[i - 1])
            == words[i] by {
            assert((words.skip(1) + configured)[i - 1] == words.skip(1)[i - 1]);
        }
        assert forall|i: int| 0 <= i < deps.target.args@.len() implies (#[trigger] views(
            spec.args@,
        )[words.len() - 1 + i]) == deps.target.args@[i]@ by {
            assert((words.skip(1) + configured)[words.len() - 1 + i] == configured[i]);
        }
    }
}

/// What was expected is launched, and what was launched is reported: after the
/// expectation went out the very same program and arguments are started, and the
/// report names the program, the pid that the start returned and the arguments,
/// and is numbered by the boot's counter.
pub proof fn law_what_is_launched_is_reported(
    deps: TargetLauncherDeps,
    spec: LaunchSpec,
    outcome: LaunchOutcome,
    state: ScopeModel,
    seq: u64,
    now_ms: Seq<i64>,
    phases: Seq<LaunchPhase>,
    actions: Seq<LaunchAction>,
    seqs: Seq<u64>,
)
    requires
        detonation_step(
            deps,
            LaunchPhase::Expecting(spec),
            LaunchEvent::Expected,
            state,
            seq,
            now_ms[0],
            phases[0],
            actions[0],
            seqs[0],
        ),
        detonation_step(
            deps,
            phases[0],
            LaunchEvent::Launched(Ok(outcome)),
            state,
            seqs[0],
            now_ms[1],
            phases[1],
            actions[1],
            seqs[1],
        ),
    ensures
        actions[0] == LaunchAction::Launch(spec),
        actions[1] matches LaunchAction::Publish(envelope) && {
            &&& envelope.seq == seq
            &&& envelope.ts == now_ms[1]
            &&& envelope.study == state.study_id
            &&& envelope.session == state.session_id()
            &&& (envelope.data matches Payload::TargetLaunched(data) && {
                &&& data.pid == outcome.pid
                &&& data.path@ == spec.path@
                &&& data.args is None <==> spec.args@.len() == 0
                &&& (spec.args@.len() > 0 && (forall|i: int|
                    0 <= i < spec.args@.len() ==> !(#[trigger] views(spec.args@)[i]).contains(' ')))
                    ==> split_on(data.args->0@, ' ') == views(spec.args@)
                &&& data.launcher is Token <==> deps.launch_mechanism is Token
            })
        },
        seqs[1] == following(seq),
{
    let args = views(spec.args@);
    assert(args.len() == spec.args@.len());
    if args.len() > 0 && (forall|i: int| 0 <= i < args.len() ==> !(#[trigger] args[i]).contains(' ')) {
        law_splitting_undoes_joining(args, ' ');
    }
}

/// A document that resolves to nothing, a failed resolution and a failed start end
/// the detonation: nothing is launched or reported, and the failure is told with
/// the words of its cause.
pub proof fn law_a_failure_ends_the_detonation(
    deps: TargetLauncherDeps,
    before: LaunchPhase,
    event: LaunchEvent,
    state: ScopeModel,
    seq: u64,
    now_ms: i64,
    after: LaunchPhase,
    action: LaunchAction,
    seq_after: u64,
)
    requires
        detonation_step(deps, before, event, state, seq, now_ms, after, action, seq_after),
        (before is Resolving && (event matches LaunchEvent::Resolved(result) && result is Err)) || (
        before is Launching && (event matches LaunchEvent::Launched(result) && result is Err)),
    ensures
        after is Finished,
        seq_after == seq,
        action matches LaunchAction::Failed(text) && {
            let words = match event {
                LaunchEvent::Resolved(Err(error)) => error.words(),
                LaunchEvent::Launched(Err(error)) => error.words(),
                _ => Seq::empty(),
            };
            text@.len() >= words.len() && text@.skip(text@.len() - words.len()) == words
        },
{
    if let LaunchAction::Failed(text) = action {
        let words = match event {
            LaunchEvent::Resolved(Err(error)) => error.words(),
            LaunchEvent::Launched(Err(error)) => error.words(),
            _ => Seq::empty(),
        };
        assert(text@.skip(text@.len() - words.len()) =~= words);
    }
}

/// One boot detonates at most once, at the first start of the marker process and
/// at no other event, and there exactly where the session calls for it.
pub proof fn law_the_marker_detonates_once(
    plugins: Seq<TargetLauncherPlugin>,
    session_counts: Seq<nat>,
    events: Seq<SandboxEvent>,
    submits: Seq<bool>,
    first: int,
)
    requires
        plugins.len() == events.len() + 1,
        session_counts.len() == events.len(),
        submits.len() == events.len(),
        !plugins[0].attempted,
        forall|k: int|
            0 <= k < events.len() ==> meets(
                plugins[k],
                session_counts[k],
                #[trigger] events[k],
                plugins[k + 1],
                submits[k],
            ),
        0 <= first < events.len(),
        events[first] matches SandboxEvent::Source(SourceEvent::ProcessStarted(data)) && same_marker(
            plugins[0].deps.marker@,
            data.name@,
        ),
        forall|k: int|
            0 <= k < first ==> !((#[trigger] events[k]) matches SandboxEvent::Source(
                SourceEvent::ProcessStarted(data),
            ) && same_marker(plugins[0].deps.marker@, data.name@)),
    ensures
        submits[first] == detonates(session_counts[first], plugins[0].deps.target.every_session),
        forall|k: int| 0 <= k < events.len() && k != first ==> !#[trigger] submits[k],
{
    assert forall|k: int| 0 <= k <= first implies !plugins[k].attempted && plugins[k].deps
        == #[trigger] plugins[0].deps by {
        lemma_unattempted_until(plugins, session_counts, events, submits, first, k);
    }
    lemma_unattempted_until(plugins, session_counts, events, submits, first, first);
    assert(meets(
        plugins[first],
        session_counts[first],
        events[first],
        plugins[first + 1],
        submits[first],
    ));
    assert forall|k: int| 0 <= k < events.len() && k != first implies !#[trigger] submits[k] by {
        assert(meets(plugins[k], session_counts[k], events[k], plugins[k + 1], submits[k]));
        if k < first {
            lemma_unattempted_until(plugins, session_counts, events, submits, first, k);
        } else {
            lemma_attempted_after(plugins, session_counts, events, submits, first + 1, k);
        }
    }
}

/// Before the marker is sighted nothing was attempted.
proof fn lemma_unattempted_until(
    plugins: Seq<TargetLauncherPlugin>,
    session_counts: Seq<nat>,
    events: Seq<SandboxEvent>,
    submits: Seq<bool>,
    first: int,
    k: int,
)
    requires
        plugins.len() == events.len() + 1,
        session_counts.len() == events.len(),
        submits.len() == events.len(),
        !plugins[0].attempted,
        forall|k: int|
            0 <= k < events.len() ==> meets(
                plugins[k],
                session_counts[k],
                #[trigger] events[k],
                plugins[k + 1],
                submits[k],
            ),
        0 <= k <= first < events.len(),
        forall|k: int|
            0 <= k < first ==> !((#[trigger] events[k]) matches SandboxEvent::Source(
                SourceEvent::ProcessStarted(data),
            ) && same_marker(plugins[0].deps.marker@, data.name@)),
    ensures
        !plugins[k].attempted,
        plugins[k].deps == plugins[0].deps,
    decreases k,
{
    if k > 0 {
        lemma_unattempted_until(plugins, session_counts, events, submits, first, k - 1);
        assert(meets(
            plugins[k - 1],
            session_counts[k - 1],
            events[k - 1],
            plugins[k],
            submits[k - 1],
        ));
    }
}

/// An attempt is not forgotten.
proof fn lemma_attempted_after(
    plugins: Seq<TargetLauncherPlugin>,
    session_counts: Seq<nat>,
    events: Seq<SandboxEvent>,
    submits: Seq<bool>,
    from: int,
    k: int,
)
    requires
        plugins.len() == events.len() + 1,
        forall|k: int|
            0 <= k < events.len() ==> meets(
                plugins[k],
                session_counts[k],
                #[trigger] events[k],
                plugins[k + 1],
                submits[k],
            ),
        0 <= from <= k <= events.len(),
        plugins[from].attempted,
    ensures
        plugins[k].attempted,
    decreases k,
{
    if k > from {
        lemma_attempted_after(plugins, session_counts, events, submits, from, k - 1);
        assert(meets(
            plugins[k - 1],
            session_counts[k - 1],
            events[k - 1],
            plugins[k],
            submits[k - 1],
        ));
    }
}

} // verus!
