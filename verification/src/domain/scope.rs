//! The scope: what persists across reboots, and the tracking logic acting on it.

use vstd::prelude::*;

use crate::collections::TextSet;
use crate::domain::drop_filter::{normal_extension, passes, DropFilter, RuleModel};
use crate::domain::image_name::path_extension;
use crate::domain::study_id::StudyId;
use crate::protocol::payload::{
    cloned_text, FileReleasedData, FileWrittenData, ProcessStartedData, ProcessStoppedData,
};
use crate::text::{lowercase, opt_view, to_lowercase, views};

verus! {

/// Root of the persisted scope database.
///
/// A nil `study_id` marks "no study yet".
#[derive(Debug, PartialEq, Eq)]
pub struct ScopeState {
    /// Study id: generated at session 0, stable across the study's reboots.
    pub study_id: StudyId,
    /// Session history, ordered by id (`id == index`).
    pub sessions: Vec<SessionRecord>,
}

/// One boot-to-reboot interval, persisted.
#[derive(Debug, PartialEq, Eq)]
pub struct SessionRecord {
    /// Study-local session id (0-based boot index).
    pub id: u32,
    /// Scheduled duration in seconds; `None` = dynamic mode.
    pub scheduled_duration_secs: Option<u64>,
    /// Wall clock (fake!) at session open, unix milliseconds.
    pub started_at_ms: i64,
    /// Wall clock at finalization; `None` while running.
    pub ended_at_ms: Option<i64>,
    /// `true` when this session was found still open at the next boot: the VM
    /// lost power or hard-reset before finalization.
    pub abandoned: bool,
    /// Processes that joined the scope this session.
    pub scoped_processes: Vec<ScopedProcessRecord>,
    /// Drop paths observed this session (deduplicated, sorted).
    pub observed_drops: TextSet,
}

/// A process that joined the analysis scope.
#[derive(Debug, PartialEq, Eq)]
pub struct ScopedProcessRecord {
    /// OS process id.
    pub pid: u32,
    /// Parent process id, when reported.
    pub parent_pid: Option<u32>,
    /// Image name with extension.
    pub name: String,
    /// Full image path, when reported.
    pub image_path: Option<String>,
    /// Command line, when reported.
    pub command_line: Option<String>,
    /// Wall clock at scope entry, unix milliseconds.
    pub started_at_ms: i64,
    /// Wall clock at exit; `None` while running.
    pub ended_at_ms: Option<i64>,
}

/// A scoped process, as a value.
#[verifier::ext_equal]
pub struct ProcessModel {
    pub pid: u32,
    pub parent_pid: Option<u32>,
    pub name: Seq<char>,
    pub image_path: Option<Seq<char>>,
    pub command_line: Option<Seq<char>>,
    pub started_at_ms: i64,
    pub ended_at_ms: Option<i64>,
}

/// A session, as a value.
#[verifier::ext_equal]
pub struct SessionModel {
    pub id: u32,
    pub scheduled_duration_secs: Option<u64>,
    pub started_at_ms: i64,
    pub ended_at_ms: Option<i64>,
    pub abandoned: bool,
    pub processes: Seq<ProcessModel>,
    pub drops: Set<Seq<char>>,
}

/// A scope database, as a value.
#[verifier::ext_equal]
pub struct ScopeModel {
    pub study_id: StudyId,
    pub sessions: Seq<SessionModel>,
}

/// What a tracker remembers, as a value.
#[verifier::ext_equal]
pub struct TrackerModel {
    pub expected: Seq<Seq<char>>,
    pub closed: Set<Seq<char>>,
}

impl View for ScopedProcessRecord {
    type V = ProcessModel;

    open spec fn view(&self) -> ProcessModel {
        ProcessModel {
            pid: self.pid,
            parent_pid: self.parent_pid,
            name: self.name@,
            image_path: opt_view(self.image_path),
            command_line: opt_view(self.command_line),
            started_at_ms: self.started_at_ms,
            ended_at_ms: self.ended_at_ms,
        }
    }
}

impl View for SessionRecord {
    type V = SessionModel;

    open spec fn view(&self) -> SessionModel {
        SessionModel {
            id: self.id,
            scheduled_duration_secs: self.scheduled_duration_secs,
            started_at_ms: self.started_at_ms,
            ended_at_ms: self.ended_at_ms,
            abandoned: self.abandoned,
            processes: process_models(self.scoped_processes@),
            drops: self.observed_drops@,
        }
    }
}

impl View for ScopeState {
    type V = ScopeModel;

    open spec fn view(&self) -> ScopeModel {
        ScopeModel { study_id: self.study_id, sessions: session_models(self.sessions@) }
    }
}

/// The processes of a list of records.
pub open spec fn process_models(records: Seq<ScopedProcessRecord>) -> Seq<ProcessModel> {
    records.map_values(|record: ScopedProcessRecord| record@)
}

/// The sessions of a list of records.
pub open spec fn session_models(records: Seq<SessionRecord>) -> Seq<SessionModel> {
    records.map_values(|record: SessionRecord| record@)
}

impl ScopeModel {
    /// The database with its last session replaced.
    pub open spec fn with_current(self, session: SessionModel) -> ScopeModel {
        ScopeModel { sessions: self.sessions.drop_last().push(session), ..self }
    }

    /// Is this pid a live member of the current session's scope?
    pub open spec fn scoped(self, pid: u32) -> bool {
        self.sessions.len() > 0 && first_live(self.sessions.last().processes, pid) >= 0
    }

    /// Did the current session's scope die: at least one process joined it, and
    /// every one of them exited?
    pub open spec fn dead(self) -> bool {
        &&& self.sessions.len() > 0
        &&& self.sessions.last().processes.len() > 0
        &&& forall|i: int|
            0 <= i < self.sessions.last().processes.len()
                ==> (#[trigger] self.sessions.last().processes[i]).ended_at_ms is Some
    }

    /// The id of the current session, 0 where there is none.
    pub open spec fn session_id(self) -> u32 {
        if self.sessions.len() > 0 {
            self.sessions.last().id
        } else {
            0
        }
    }

    /// Sessions are numbered by boot: `id == index`, up to the largest id.
    pub open spec fn numbered(self) -> bool {
        forall|i: int| 0 <= i < self.sessions.len() ==> (#[trigger] self.sessions[i]).id == boot_id(i as nat)
    }

    /// No session lists a pid twice.
    pub open spec fn pids_unique(self) -> bool {
        forall|i: int|
            0 <= i < self.sessions.len() ==> unique_pids((#[trigger] self.sessions[i]).processes)
    }
}

/// The id of the session that follows `count` earlier ones.
pub open spec fn boot_id(count: nat) -> u32 {
    if count <= u32::MAX {
        count as u32
    } else {
        u32::MAX
    }
}

/// A session that has just been opened.
pub open spec fn fresh_session(id: u32, now_ms: i64, scheduled_duration_secs: Option<u64>) -> SessionModel {
    SessionModel {
        id,
        scheduled_duration_secs,
        started_at_ms: now_ms,
        ended_at_ms: None,
        abandoned: false,
        processes: Seq::empty(),
        drops: Set::empty(),
    }
}

/// A live record of this pid?
pub open spec fn live_record(process: ProcessModel, pid: u32) -> bool {
    process.pid == pid && process.ended_at_ms is None
}

/// The place of the first live record of a pid, `-1` when there is none.
pub open spec fn first_live(processes: Seq<ProcessModel>, pid: u32) -> int
    decreases processes.len(),
{
    if processes.len() == 0 {
        -1
    } else {
        let earlier = first_live(processes.drop_last(), pid);
        if earlier >= 0 {
            earlier
        } else if live_record(processes.last(), pid) {
            processes.len() - 1
        } else {
            -1
        }
    }
}

/// The records of other pids, in order.
pub open spec fn without_pid(processes: Seq<ProcessModel>, pid: u32) -> Seq<ProcessModel>
    decreases processes.len(),
{
    if processes.len() == 0 {
        processes
    } else {
        let rest = without_pid(processes.drop_last(), pid);
        if processes.last().pid == pid {
            rest
        } else {
            rest.push(processes.last())
        }
    }
}

/// No pid is listed twice.
pub open spec fn unique_pids(processes: Seq<ProcessModel>) -> bool {
    forall|i: int, j: int|
        0 <= i < j < processes.len() ==> (#[trigger] processes[i]).pid != (#[trigger] processes[j]).pid
}

/// Does a process of this (normalized) name and parent join the scope: its
/// image is expected, or its parent is a live scoped process?
pub open spec fn joins(
    tracker: TrackerModel,
    state: ScopeModel,
    name: Seq<char>,
    parent_pid: Option<u32>,
) -> bool {
    &&& state.sessions.len() > 0
    &&& tracker.expected.contains(name) || (parent_pid is Some && state.scoped(parent_pid->0))
}

/// The record of a process that joins the scope.
pub open spec fn joined_record(data: ProcessStartedData, name: Seq<char>, now_ms: i64) -> ProcessModel {
    ProcessModel {
        pid: data.pid,
        parent_pid: data.parent_pid,
        name,
        image_path: opt_view(data.image_path),
        command_line: opt_view(data.command_line),
        started_at_ms: now_ms,
        ended_at_ms: None,
    }
}

/// The database after a process joined: its record replaces any earlier one of
/// its pid.
pub open spec fn with_process(state: ScopeModel, process: ProcessModel) -> ScopeModel {
    let session = state.sessions.last();
    state.with_current(
        SessionModel {
            processes: without_pid(session.processes, process.pid).push(process),
            ..session
        },
    )
}

/// The database after a scoped process exited.
pub open spec fn with_exit(state: ScopeModel, pid: u32, now_ms: i64) -> ScopeModel {
    let session = state.sessions.last();
    let at = first_live(session.processes, pid);
    let ended = ProcessModel { ended_at_ms: Some(now_ms), ..session.processes[at] };
    state.with_current(SessionModel { processes: session.processes.update(at, ended), ..session })
}

/// Is a write of this process to this file the first sighting of a drop?
pub open spec fn drops_first(
    state: ScopeModel,
    pid: u32,
    path: Seq<char>,
    rules: Seq<RuleModel>,
) -> bool {
    &&& state.scoped(pid)
    &&& passes(rules, normal_extension(path_extension(path)))
    &&& !state.sessions.last().drops.contains(path)
}

/// The database after a drop was sighted.
pub open spec fn with_drop(state: ScopeModel, path: Seq<char>) -> ScopeModel {
    let session = state.sessions.last();
    state.with_current(SessionModel { drops: session.drops.insert(path), ..session })
}

/// Is this the first close of an observed drop?
pub open spec fn closes_first(tracker: TrackerModel, state: ScopeModel, path: Seq<char>) -> bool {
    &&& state.sessions.len() > 0
    &&& state.sessions.last().drops.contains(path)
    &&& !tracker.closed.contains(path)
}

impl ScopeState {
    /// Every session's drops are a proper set.
    pub open spec fn wf(&self) -> bool {
        forall|i: int|
            0 <= i < self.sessions@.len() ==> (#[trigger] self.sessions@[i]).observed_drops.wf()
    }

    /// The session record of the currently open session, if any.
    pub fn current_session(&self) -> (session: Option<&SessionRecord>)
        ensures
            match session {
                Some(session) => self.sessions@.len() > 0 && *session == self.sessions@.last(),
                None => self.sessions@.len() == 0,
            },
    {
        if self.sessions.len() == 0 {
            None
        } else {
            Some(&self.sessions[self.sessions.len() - 1])
        }
    }

    /// Mutable session record of the currently open session, if any.
    pub fn current_session_mut(&mut self) -> (session: Option<&mut SessionRecord>)
        ensures
            match session {
                Some(record) => {
                    &&& old(self).sessions@.len() > 0
                    &&& *record == old(self).sessions@.last()
                    &&& final(self).study_id == old(self).study_id
                    &&& final(self).sessions@ == old(self).sessions@.drop_last().push(*final(record))
                },
                None => {
                    &&& old(self).sessions@.len() == 0
                    &&& final(self).study_id == old(self).study_id
                    &&& final(self).sessions@ == old(self).sessions@
                },
            },
    {
        let count: usize = self.sessions.len();
        if count == 0 {
            None
        } else {
            Some(&mut self.sessions[count - 1])
        }
    }

    /// The id of the current session, 0 where there is none.
    pub fn session_id(&self) -> (id: u32)
        ensures
            id == self@.session_id(),
    {
        match self.current_session() {
            Some(session) => session.id,
            None => 0,
        }
    }
}

impl Default for ScopeState {
    fn default() -> (state: Self)
        ensures
            state.wf(),
            state@ == (ScopeModel { study_id: StudyId { bits: 0 }, sessions: Seq::empty() }),
    {
        let state = ScopeState { study_id: StudyId::nil(), sessions: Vec::new() };
        proof {
            assert(state@.sessions =~= Seq::<SessionModel>::empty());
        }
        state
    }
}

impl Clone for ScopedProcessRecord {
    fn clone(&self) -> (copy: Self)
        ensures
            copy == *self,
    {
        ScopedProcessRecord {
            pid: self.pid,
            parent_pid: self.parent_pid,
            name: self.name.clone(),
            image_path: cloned_text(&self.image_path),
            command_line: cloned_text(&self.command_line),
            started_at_ms: self.started_at_ms,
            ended_at_ms: self.ended_at_ms,
        }
    }
}

impl Clone for SessionRecord {
    fn clone(&self) -> (copy: Self)
        ensures
            copy@ == self@,
            copy.observed_drops.wf() == self.observed_drops.wf(),
    {
        let mut processes: Vec<ScopedProcessRecord> = Vec::new();
        let mut at: usize = 0;
        while at < self.scoped_processes.len()
            invariant
                at <= self.scoped_processes@.len(),
                processes@ == self.scoped_processes@.take(at as int),
            decreases self.scoped_processes@.len() - at,
        {
            processes.push(self.scoped_processes[at].clone());
            at = at + 1;
            proof {
                assert(processes@ =~= self.scoped_processes@.take(at as int));
            }
        }
        proof {
            assert(processes@ =~= self.scoped_processes@);
        }
        SessionRecord {
            id: self.id,
            scheduled_duration_secs: self.scheduled_duration_secs,
            started_at_ms: self.started_at_ms,
            ended_at_ms: self.ended_at_ms,
            abandoned: self.abandoned,
            scoped_processes: processes,
            observed_drops: self.observed_drops.clone(),
        }
    }
}

impl Default for SessionRecord {
    fn default() -> (session: Self)
        ensures
            session.observed_drops.wf(),
            session@ == fresh_session(0, 0, None),
    {
        new_session(0, 0, None)
    }
}

impl Clone for ScopeState {
    fn clone(&self) -> (copy: Self)
        ensures
            copy@ == self@,
            self.wf() ==> copy.wf(),
    {
        let mut sessions: Vec<SessionRecord> = Vec::new();
        let mut at: usize = 0;
        while at < self.sessions.len()
            invariant
                at <= self.sessions@.len(),
                sessions@.len() == at,
                session_models(sessions@) == session_models(self.sessions@).take(at as int),
                forall|i: int|
                    0 <= i < at ==> (#[trigger] sessions@[i]).observed_drops.wf()
                        == self.sessions@[i].observed_drops.wf(),
            decreases self.sessions@.len() - at,
        {
            let ghost prior = session_models(sessions@);
            sessions.push(self.sessions[at].clone());
            at = at + 1;
            proof {
                assert(session_models(sessions@) =~= prior.push(self.sessions@[at - 1]@));
                assert(session_models(sessions@) =~= session_models(self.sessions@).take(at as int));
            }
        }
        proof {
            assert(session_models(sessions@) =~= session_models(self.sessions@));
        }
        ScopeState { study_id: self.study_id, sessions }
    }
}

/// A record of a session that opens now.
pub fn new_session(id: u32, now_ms: i64, scheduled_duration_secs: Option<u64>) -> (session: SessionRecord)
    ensures
        session.observed_drops.wf(),
        session@ == fresh_session(id, now_ms, scheduled_duration_secs),
{
    let session = SessionRecord {
        id,
        scheduled_duration_secs,
        started_at_ms: now_ms,
        ended_at_ms: None,
        abandoned: false,
        scoped_processes: Vec::new(),
        observed_drops: TextSet::new(),
    };
    proof {
        assert(session@.processes =~= Seq::<ProcessModel>::empty());
    }
    session
}

/// The id of the session that follows `count` earlier ones.
pub fn next_session_id(count: usize) -> (id: u32)
    ensures
        id == boot_id(count as nat),
{
    if count <= u32::MAX as usize {
        count as u32
    } else {
        u32::MAX
    }
}

/// Pure scope-tracking logic. Owns what must not persist (expected processes,
/// closed-drop bookkeeping); acts on the shared [`ScopeState`].
#[derive(Debug)]
pub struct ScopeTracker {
    /// Lowercase image names that seed the scope.
    expected: Vec<String>,
    /// Observed drop paths already reported closed.
    closed: TextSet,
}

impl View for ScopeTracker {
    type V = TrackerModel;

    closed spec fn view(&self) -> TrackerModel {
        TrackerModel { expected: views(self.expected@), closed: self.closed@ }
    }
}

impl Default for ScopeTracker {
    fn default() -> (tracker: Self)
        ensures
            tracker.wf(),
            tracker@ == (TrackerModel { expected: Seq::empty(), closed: Set::empty() }),
    {
        ScopeTracker::new(Vec::new())
    }
}

impl ScopeTracker {
    /// The closed drops are a proper set.
    pub closed spec fn wf(&self) -> bool {
        self.closed.wf()
    }

    /// Create a tracker with initial expected process names (normalized).
    pub fn new(expected: Vec<String>) -> (tracker: Self)
        ensures
            tracker.wf(),
            tracker@ == (TrackerModel { expected: views(expected@), closed: Set::empty() }),
    {
        ScopeTracker { expected, closed: TextSet::new() }
    }

    /// Register one more expected process name (normalized internally).
    pub fn expect(&mut self, image_name: &str)
        requires
            old(self).wf(),
        ensures
            final(self).wf(),
            final(self)@ == expecting(old(self)@, lowercase(image_name@)),
    {
        let normalized = normalize_image_name(image_name);
        self.expect_normalized(normalized);
    }

    /// Register one more expected process name, already normalized.
    pub fn expect_normalized(&mut self, name: String)
        requires
            old(self).wf(),
        ensures
            final(self).wf(),
            final(self)@ == expecting(old(self)@, name@),
    {
        if !name.as_str().is_empty() && !self.expects(name.as_str()) {
            let ghost prior = views(self.expected@);
            let ghost added = name@;
            self.expected.push(name);
            proof {
                assert(views(self.expected@) =~= prior.push(added));
            }
        }
    }

    /// Is this normalized name expected?
    pub fn expects(&self, name: &str) -> (expected: bool)
        ensures
            expected == self@.expected.contains(name@),
    {
        let mut at: usize = 0;
        while at < self.expected.len()
            invariant
                at <= self.expected@.len(),
                forall|i: int| 0 <= i < at ==> #[trigger] self@.expected[i] != name@,
            decreases self.expected@.len() - at,
        {
            if *self.expected[at].as_str() == *name {
                proof {
                    assert(self@.expected[at as int] == name@);
                }
                return true;
            }
            at = at + 1;
        }
        false
    }

    /// Open a new session (id = current session count) at `now_ms`.
    pub fn open_session(
        &self,
        state: &mut ScopeState,
        now_ms: i64,
        scheduled_duration_secs: Option<u64>,
    )
        requires
            old(state).wf(),
        ensures
            final(state).wf(),
            final(state)@ == opened(old(state)@, now_ms, scheduled_duration_secs),
    {
        let id = next_session_id(state.sessions.len());
        let ghost prior = session_models(state.sessions@);
        state.sessions.push(new_session(id, now_ms, scheduled_duration_secs));
        proof {
            assert(session_models(state.sessions@) =~= prior.push(
                fresh_session(id, now_ms, scheduled_duration_secs),
            ));
        }
    }

    /// Apply a `process.started`. Returns `true` when the process entered the
    /// scope: its image is expected, or its parent is a live scoped process.
    ///
    /// A pid already present in the session replaces its record: pids are
    /// recycled, and a stale record would fake scope liveness or hide real scope
    /// death.
    pub fn process_entered(
        &self,
        state: &mut ScopeState,
        data: &ProcessStartedData,
        now_ms: i64,
    ) -> (entered: bool)
        requires
            old(state).wf(),
        ensures
            final(state).wf(),
            entered == joins(self@, old(state)@, lowercase(data.name@), data.parent_pid),
            final(state)@ == if entered {
                with_process(old(state)@, joined_record(*data, lowercase(data.name@), now_ms))
            } else {
                old(state)@
            },
    {
        let name = normalize_image_name(data.name.as_str());
        self.process_entered_as(state, data, name, now_ms)
    }

    /// [`ScopeTracker::process_entered`] for a process whose name is already
    /// normalized.
    pub fn process_entered_as(
        &self,
        state: &mut ScopeState,
        data: &ProcessStartedData,
        name: String,
        now_ms: i64,
    ) -> (entered: bool)
        requires
            old(state).wf(),
        ensures
            final(state).wf(),
            entered == joins(self@, old(state)@, name@, data.parent_pid),
            final(state)@ == if entered {
                with_process(old(state)@, joined_record(*data, name@, now_ms))
            } else {
                old(state)@
            },
    {
        let inherited = match data.parent_pid {
            Some(parent) => self.is_scoped(state, parent),
            None => false,
        };
        if !inherited && !self.expects(name.as_str()) {
            return false;
        }
        let ghost old_state = state@;
        let ghost old_records = state.sessions@;
        match state.current_session_mut() {
            None => false,
            Some(session) => {
                let ghost old_session = session@;
                let record = ScopedProcessRecord {
                    pid: data.pid,
                    parent_pid: data.parent_pid,
                    name,
                    image_path: cloned_text(&data.image_path),
                    command_line: cloned_text(&data.command_line),
                    started_at_ms: now_ms,
                    ended_at_ms: None,
                };
                let ghost added = record@;
                let mut kept = records_without(&session.scoped_processes, data.pid);
                let ghost others = process_models(kept@);
                kept.push(record);
                proof {
                    assert(process_models(kept@) =~= others.push(added));
                }
                session.scoped_processes = kept;
                proof {
                    assert(session_models(old_records).drop_last() =~= session_models(
                        old_records.drop_last(),
                    ));
                    let replaced = *session;
                    assert(session_models(old_records.drop_last().push(replaced)) =~= session_models(
                        old_records.drop_last(),
                    ).push(replaced@));
                }
                true
            },
        }
    }

    /// Apply a `process.stopped`. Returns `true` when the pid belonged to the
    /// current session's scope; stamps the exit time.
    pub fn process_exited(
        &self,
        state: &mut ScopeState,
        data: &ProcessStoppedData,
        now_ms: i64,
    ) -> (exited: bool)
        requires
            old(state).wf(),
        ensures
            final(state).wf(),
            exited == old(state)@.scoped(data.pid),
            final(state)@ == if exited {
                with_exit(old(state)@, data.pid, now_ms)
            } else {
                old(state)@
            },
    {
        let ghost old_records = state.sessions@;
        match state.current_session_mut() {
            None => false,
            Some(session) => {
                let ghost old_processes = session.scoped_processes@;
                let found = find_live(&session.scoped_processes, data.pid);
                match found {
                    None => {
                        proof {
                            assert(old_records.drop_last().push(*session) =~= old_records);
                        }
                        false
                    },
                    Some(at) => {
                        session.scoped_processes[at].ended_at_ms = Some(now_ms);
                        proof {
                            let ended = ProcessModel {
                                ended_at_ms: Some(now_ms),
                                ..process_models(old_processes)[at as int]
                            };
                            assert(process_models(session.scoped_processes@) =~= process_models(
                                old_processes,
                            ).update(at as int, ended));
                            assert(session_models(old_records).drop_last() =~= session_models(
                                old_records.drop_last(),
                            ));
                            let replaced = *session;
                            assert(session_models(old_records.drop_last().push(replaced))
                                =~= session_models(old_records.drop_last()).push(replaced@));
                        }
                        true
                    },
                }
            },
        }
    }

    /// Is `pid` a live member of the current session's scope? Dead records never
    /// match: a recycled pid must neither inherit the scope nor attribute drops
    /// to it.
    pub fn is_scoped(&self, state: &ScopeState, pid: u32) -> (scoped: bool)
        requires
            state.wf(),
        ensures
            scoped == state@.scoped(pid),
    {
        match state.current_session() {
            Some(session) => find_live(&session.scoped_processes, pid).is_some(),
            None => false,
        }
    }

    /// Scope-death check: the scope is dead only when a session exists, at least
    /// one process was scoped, and every one of them exited. An empty session is
    /// not dead: the target may not have launched yet.
    pub fn scope_dead(state: &ScopeState) -> (dead: bool)
        requires
            state.wf(),
        ensures
            dead == state@.dead(),
    {
        match state.current_session() {
            None => false,
            Some(session) => {
                let ghost processes = state@.sessions.last().processes;
                proof {
                    assert(processes =~= process_models(session.scoped_processes@));
                }
                let mut at: usize = 0;
                while at < session.scoped_processes.len()
                    invariant
                        at <= session.scoped_processes@.len(),
                        processes == process_models(session.scoped_processes@),
                        processes == state@.sessions.last().processes,
                        forall|i: int| 0 <= i < at ==> (#[trigger] processes[i]).ended_at_ms is Some,
                    decreases session.scoped_processes@.len() - at,
                {
                    if session.scoped_processes[at].ended_at_ms.is_none() {
                        proof {
                            assert(processes[at as int].ended_at_ms is None);
                        }
                        return false;
                    }
                    at = at + 1;
                }
                session.scoped_processes.len() > 0
            },
        }
    }

    /// Apply a `file.written` from a scoped process. Returns the drop path when
    /// this is the first matching write for that path this session.
    pub fn drop_observed(
        &mut self,
        state: &mut ScopeState,
        data: &FileWrittenData,
        filter: &DropFilter,
    ) -> (observed: Option<String>)
        requires
            old(self).wf(),
            old(state).wf(),
        ensures
            *final(self) == *old(self),
            final(state).wf(),
            match observed {
                Some(path) => {
                    &&& data.file_name == Some(path)
                    &&& drops_first(old(state)@, data.pid, path@, filter@)
                    &&& final(state)@ == with_drop(old(state)@, path@)
                },
                None => {
                    &&& data.file_name is None || !drops_first(
                        old(state)@,
                        data.pid,
                        data.file_name->0@,
                        filter@,
                    )
                    &&& final(state)@ == old(state)@
                },
            },
    {
        if !self.is_scoped(state, data.pid) {
            return None;
        }
        match &data.file_name {
            None => None,
            Some(path) => {
                if !filter.matches(path.as_str()) {
                    return None;
                }
                let ghost old_state = state@;
                let ghost old_records = state.sessions@;
                match state.current_session_mut() {
                    None => None,
                    Some(session) => {
                        let ghost old_session = *session;
                        if session.observed_drops.insert(path.clone()) {
                            proof {
                                assert(session_models(old_records).drop_last() =~= session_models(
                                    old_records.drop_last(),
                                ));
                                let replaced = *session;
                                assert(session_models(old_records.drop_last().push(replaced))
                                    =~= session_models(old_records.drop_last()).push(replaced@));
                            }
                            Some(path.clone())
                        } else {
                            proof {
                                let replaced = *session;
                                assert(replaced@ == old_session@) by {
                                    assert(old_session.observed_drops@.insert(path@)
                                        =~= old_session.observed_drops@);
                                }
                                assert(session_models(old_records.drop_last().push(replaced))
                                    =~= session_models(old_records));
                            }
                            None
                        }
                    },
                }
            },
        }
    }

    /// Apply a `file.closed`/`file.cleaned_up`. Returns the path when it was an
    /// observed drop getting its close reported (reported once per path).
    pub fn drop_closed(&mut self, state: &ScopeState, data: &FileReleasedData) -> (closed: Option<
        String,
    >)
        requires
            old(self).wf(),
            state.wf(),
        ensures
            final(self).wf(),
            match closed {
                Some(path) => {
                    &&& data.file_name == Some(path)
                    &&& closes_first(old(self)@, state@, path@)
                    &&& final(self)@ == (TrackerModel {
                        closed: old(self)@.closed.insert(path@),
                        ..old(self)@
                    })
                },
                None => {
                    &&& data.file_name is None || !closes_first(
                        old(self)@,
                        state@,
                        data.file_name->0@,
                    )
                    &&& final(self)@ == old(self)@
                },
            },
    {
        match &data.file_name {
            None => None,
            Some(path) => {
                let observed = match state.current_session() {
                    Some(session) => session.observed_drops.contains(path.as_str()),
                    None => false,
                };
                if !observed {
                    return None;
                }
                let ghost before = self.closed@;
                if self.closed.insert(path.clone()) {
                    Some(path.clone())
                } else {
                    proof {
                        assert(before.insert(path@) =~= before);
                    }
                    None
                }
            },
        }
    }
}

/// A tracker that also expects this normalized name; the empty name is never
/// expected, and a name is listed once.
pub open spec fn expecting(tracker: TrackerModel, name: Seq<char>) -> TrackerModel {
    if name.len() > 0 && !tracker.expected.contains(name) {
        TrackerModel { expected: tracker.expected.push(name), ..tracker }
    } else {
        tracker
    }
}

/// The database with one more session, opened now.
pub open spec fn opened(
    state: ScopeModel,
    now_ms: i64,
    scheduled_duration_secs: Option<u64>,
) -> ScopeModel {
    ScopeModel {
        sessions: state.sessions.push(
            fresh_session(boot_id(state.sessions.len()), now_ms, scheduled_duration_secs),
        ),
        ..state
    }
}

/// The first live record of a pid.
fn find_live(records: &Vec<ScopedProcessRecord>, pid: u32) -> (found: Option<usize>)
    ensures
        match found {
            Some(at) => first_live(process_models(records@), pid) == at && at < records@.len(),
            None => first_live(process_models(records@), pid) < 0,
        },
{
    let ghost models = process_models(records@);
    let mut at: usize = 0;
    while at < records.len()
        invariant
            at <= records@.len(),
            models == process_models(records@),
            first_live(models.take(at as int), pid) < 0,
        decreases records@.len() - at,
    {
        proof {
            assert(models.take(at + 1).drop_last() =~= models.take(at as int));
        }
        if records[at].pid == pid && records[at].ended_at_ms.is_none() {
            proof {
                lemma_first_live_prefix(models, at + 1, pid);
            }
            return Some(at);
        }
        at = at + 1;
    }
    proof {
        assert(models.take(models.len() as int) =~= models);
    }
    None
}

proof fn lemma_first_live_prefix(processes: Seq<ProcessModel>, count: int, pid: u32)
    requires
        0 <= count <= processes.len(),
        first_live(processes.take(count), pid) >= 0,
    ensures
        first_live(processes, pid) == first_live(processes.take(count), pid),
    decreases processes.len(),
{
    if count < processes.len() {
        assert(processes.drop_last().take(count) =~= processes.take(count));
        lemma_first_live_prefix(processes.drop_last(), count, pid);
    } else {
        assert(processes.take(count) =~= processes);
    }
}

/// Copies of the records of other pids, in order.
fn records_without(records: &Vec<ScopedProcessRecord>, pid: u32) -> (kept: Vec<ScopedProcessRecord>)
    ensures
        process_models(kept@) == without_pid(process_models(records@), pid),
{
    let ghost models = process_models(records@);
    let mut kept: Vec<ScopedProcessRecord> = Vec::new();
    let mut at: usize = 0;
    proof {
        assert(process_models(kept@) =~= without_pid(models.take(0), pid));
    }
    while at < records.len()
        invariant
            at <= records@.len(),
            models == process_models(records@),
            process_models(kept@) == without_pid(models.take(at as int), pid),
        decreases records@.len() - at,
    {
        let ghost prior = process_models(kept@);
        if records[at].pid != pid {
            kept.push(records[at].clone());
            proof {
                assert(process_models(kept@) =~= prior.push(models[at as int]));
            }
        }
        at = at + 1;
        proof {
            assert(models.take(at as int).drop_last() =~= models.take(at - 1));
        }
    }
    proof {
        assert(models.take(models.len() as int) =~= models);
    }
    kept
}

/// Normalize an image name for comparisons: lowercase.
pub fn normalize_image_name(image_name: &str) -> (normalized: String)
    ensures
        normalized@ == lowercase(image_name@),
{
    to_lowercase(image_name)
}

} // verus!
