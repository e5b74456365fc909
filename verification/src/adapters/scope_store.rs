//! Scope repositories: the JSON file, the local-run file and the volatile one.
//!
//! Persistent state is never truncated in place. A temporary file is written
//! fresh, flushed to the disk and then renamed over the database: a crash leaves
//! the previous state intact, and a power loss around the rename cannot leave a
//! stale or empty database (a nil study id would silently start a new study).

use vstd::prelude::*;

use crate::domain::image_name::{
    ends_idly, extended, file_name, is_verbatim, last_dot, law_last_segment_is_a_tail, law_prefix_is_a_head,
    name_end, name_extension, path_file_name, prefix_len, segment_in, stem, with_extension, without_prefix,
};
use crate::domain::scope::ScopeState;
use crate::ports::joined_text;

verus! {

/// Scope repository failures.
#[derive(Debug, PartialEq, Eq)]
pub enum ScopeRepositoryError {
    /// The database does not parse.
    Corrupt(String),
    /// The database could not be read or written.
    Io(String),
}

impl ScopeRepositoryError {
    /// The failure in words.
    pub open spec fn words(self) -> Seq<char> {
        match self {
            ScopeRepositoryError::Corrupt(detail) => "scope database corrupt: "@ + detail@,
            ScopeRepositoryError::Io(detail) => "scope database I/O failed: "@ + detail@,
        }
    }

    /// The failure in words.
    pub fn message(&self) -> (text: String)
        ensures
            text@ == self.words(),
    {
        match self {
            ScopeRepositoryError::Corrupt(detail) => joined_text(
                "scope database corrupt: ",
                detail.as_str(),
            ),
            ScopeRepositoryError::Io(detail) => joined_text("scope database I/O failed: ", detail.as_str()),
        }
    }
}

/// File-backed repository. Missing file = no study yet (default state).
#[derive(Debug)]
pub struct JsonScopeRepository {
    /// The database file.
    pub path: String,
}

/// What reading the database file gave.
#[derive(Debug)]
pub enum ReadOutcome {
    /// A state.
    Parsed(ScopeState),
    /// Bytes that are no state; the text says why.
    Malformed(String),
    /// There is no such file.
    Missing,
    /// The file could not be read.
    Failed(String),
}

/// What one step of a save gave.
#[derive(Debug)]
pub enum StepOutcome {
    /// It was done.
    Done,
    /// There was no such file; the text is the system's.
    NotFound(String),
    /// It failed.
    Failed(String),
}

/// How far a save is: the step whose outcome it waits for.
#[derive(Debug, Clone, Copy, PartialEq, Eq, Structural)]
pub enum SaveStage {
    /// A temporary file left behind by a crash is being removed.
    Removing,
    /// The temporary file is being created; it must not exist.
    Creating,
    /// The state is being written.
    Writing,
    /// The temporary file is being flushed to the disk.
    Syncing,
    /// The temporary file is being closed.
    Closing,
    /// The temporary file is being renamed over the database.
    Renaming,
    /// The directory is being flushed to the disk.
    SyncingDirectory,
    /// Nothing is left.
    Finished,
}

/// A save in progress.
#[derive(Debug)]
pub struct SaveRun {
    /// The step whose outcome it waits for.
    pub stage: SaveStage,
    /// The database file.
    pub path: String,
    /// What is still to be written.
    pub bytes: Vec<u8>,
}

/// What the host does next.
#[derive(Debug)]
pub enum SaveAction {
    /// Remove this file.
    Remove(String),
    /// Create this file, which must not exist, and keep it open.
    Create(String),
    /// Write these bytes to the open file.
    Write(Vec<u8>),
    /// Flush the open file to the disk.
    Sync,
    /// Close the open file.
    Close,
    /// Rename a file over another.
    Rename {
        /// The file.
        from: String,
        /// The file that it replaces.
        to: String,
    },
    /// Flush the directory of this file to the disk.
    SyncDirectory(String),
    /// The save is over.
    Over(Result<(), ScopeRepositoryError>),
}

/// The stage after a step.
pub open spec fn next_stage(stage: SaveStage, outcome: StepOutcome) -> SaveStage {
    match stage {
        SaveStage::Removing => if outcome is Failed {
            SaveStage::Finished
        } else {
            SaveStage::Creating
        },
        SaveStage::Creating => if outcome is Done {
            SaveStage::Writing
        } else {
            SaveStage::Finished
        },
        SaveStage::Writing => if outcome is Done {
            SaveStage::Syncing
        } else {
            SaveStage::Finished
        },
        SaveStage::Syncing => if outcome is Done {
            SaveStage::Closing
        } else {
            SaveStage::Finished
        },
        SaveStage::Closing => SaveStage::Renaming,
        SaveStage::Renaming => if outcome is Done {
            SaveStage::SyncingDirectory
        } else {
            SaveStage::Finished
        },
        _ => SaveStage::Finished,
    }
}

/// The detail of a failed step.
pub open spec fn failure_words(outcome: StepOutcome) -> Seq<char> {
    match outcome {
        StepOutcome::Failed(detail) => detail@,
        StepOutcome::NotFound(detail) => detail@,
        StepOutcome::Done => Seq::empty(),
    }
}

/// Is a save successful once its directory step is over, whatever that gave, and
/// failed wherever else it finishes?
pub open spec fn save_ends(stage: SaveStage, outcome: StepOutcome, action: SaveAction) -> bool {
    action matches SaveAction::Over(result) && if stage is SyncingDirectory || stage is Finished {
        result is Ok
    } else {
        result matches Err(ScopeRepositoryError::Io(detail)) && detail@ == failure_words(outcome)
    }
}

/// Where the temporary file of a database is.
pub open spec fn temp_of(path: Seq<char>) -> Seq<char> {
    extended(path, "json.tmp"@)
}

/// Is this the step of a stage, for a database at this path that is to hold these
/// bytes?
pub open spec fn performs_save(
    path: Seq<char>,
    bytes: Seq<u8>,
    stage: SaveStage,
    action: SaveAction,
) -> bool {
    match stage {
        SaveStage::Removing => action matches SaveAction::Remove(file) && file@ == temp_of(path),
        SaveStage::Creating => action matches SaveAction::Create(file) && file@ == temp_of(path),
        SaveStage::Writing => action matches SaveAction::Write(written) && written@ == bytes,
        SaveStage::Syncing => action is Sync,
        SaveStage::Closing => action is Close,
        SaveStage::Renaming => action matches SaveAction::Rename { from, to } && from@ == temp_of(path)
            && to@ == path,
        SaveStage::SyncingDirectory => action matches SaveAction::SyncDirectory(file) && file@ == path,
        SaveStage::Finished => action is Over,
    }
}

/// Has a save of these bytes to this database begun? Where there are none, because
/// the state could not be written down, it is over before any file is touched.
pub open spec fn save_begins(
    path: Seq<char>,
    bytes: Result<Vec<u8>, String>,
    run: SaveRun,
    action: SaveAction,
) -> bool {
    &&& run.path@ == path
    &&& match bytes {
        Ok(bytes) => {
            &&& run.stage is Removing
            &&& run.bytes@ == bytes@
            &&& performs_save(path, bytes@, SaveStage::Removing, action)
        },
        Err(detail) => {
            &&& run.stage is Finished
            &&& run.bytes@.len() == 0
            &&& action == SaveAction::Over(Err(ScopeRepositoryError::Corrupt(detail)))
        },
    }
}

/// Does a save go on like this, once a step has given this outcome?
pub open spec fn save_follows(run: SaveRun, outcome: StepOutcome, next: SaveRun, action: SaveAction) -> bool {
    &&& next.stage == next_stage(run.stage, outcome)
    &&& next.path == run.path
    &&& next.bytes@ == if next.stage is Writing {
        Seq::empty()
    } else {
        run.bytes@
    }
    &&& if next.stage is Finished {
        save_ends(run.stage, outcome, action)
    } else {
        performs_save(run.path@, run.bytes@, next.stage, action)
    }
}

/// Where the temporary file of a database is.
fn temp_file(path: &str) -> (temp: String)
    ensures
        temp@ == temp_of(path@),
{
    with_extension(path, "json.tmp")
}

impl JsonScopeRepository {
    /// Repository bound to one database path (such as `scope.json`).
    pub fn new(path: String) -> (repository: Self)
        ensures
            repository.path == path,
    {
        JsonScopeRepository { path }
    }

    /// Where the temporary file is.
    pub fn temp_path(&self) -> (temp: String)
        ensures
            temp@ == temp_of(self.path@),
    {
        temp_file(self.path.as_str())
    }

    /// The loaded state: no file means no study yet.
    pub fn load(&self, outcome: ReadOutcome) -> (state: Result<ScopeState, ScopeRepositoryError>)
        ensures
            loads(outcome, state),
    {
        match outcome {
            ReadOutcome::Parsed(parsed) => Ok(parsed),
            ReadOutcome::Malformed(detail) => Err(ScopeRepositoryError::Corrupt(detail)),
            ReadOutcome::Missing => Ok(ScopeState::default()),
            ReadOutcome::Failed(detail) => Err(ScopeRepositoryError::Io(detail)),
        }
    }

    /// Begin a save of a state, given as the bytes of the file (or why it could not
    /// be written down).
    pub fn save(&self, bytes: Result<Vec<u8>, String>) -> (begun: (SaveRun, SaveAction))
        ensures
            save_begins(self.path@, bytes, begun.0, begun.1),
    {
        let path = self.path.clone();
        match bytes {
            Ok(bytes) => (
                SaveRun { stage: SaveStage::Removing, path, bytes },
                SaveAction::Remove(self.temp_path()),
            ),
            Err(detail) => (
                SaveRun { stage: SaveStage::Finished, path, bytes: Vec::new() },
                SaveAction::Over(Err(ScopeRepositoryError::Corrupt(detail))),
            ),
        }
    }

    /// Take in what the last step gave.
    pub fn save_step(run: SaveRun, outcome: StepOutcome) -> (next: (SaveRun, SaveAction))
        ensures
            save_follows(run, outcome, next.0, next.1),
    {
        let after = match (run.stage, &outcome) {
            (SaveStage::Removing, StepOutcome::Done) => SaveStage::Creating,
            (SaveStage::Removing, StepOutcome::NotFound(_)) => SaveStage::Creating,
            (SaveStage::Creating, StepOutcome::Done) => SaveStage::Writing,
            (SaveStage::Writing, StepOutcome::Done) => SaveStage::Syncing,
            (SaveStage::Syncing, StepOutcome::Done) => SaveStage::Closing,
            (SaveStage::Closing, _) => SaveStage::Renaming,
            (SaveStage::Renaming, StepOutcome::Done) => SaveStage::SyncingDirectory,
            _ => SaveStage::Finished,
        };
        let stage = run.stage;
        let path = run.path;
        let mut bytes = run.bytes;
        let action = match after {
            SaveStage::Removing => SaveAction::Remove(temp_file(path.as_str())),
            SaveStage::Creating => SaveAction::Create(temp_file(path.as_str())),
            SaveStage::Writing => {
                let written = bytes;
                bytes = Vec::new();
                SaveAction::Write(written)
            },
            SaveStage::Syncing => SaveAction::Sync,
            SaveStage::Closing => SaveAction::Close,
            SaveStage::Renaming => SaveAction::Rename {
                from: temp_file(path.as_str()),
                to: path.clone(),
            },
            SaveStage::SyncingDirectory => SaveAction::SyncDirectory(path.clone()),
            SaveStage::Finished => SaveAction::Over(
                match stage {
                    SaveStage::SyncingDirectory => Ok(()),
                    SaveStage::Finished => Ok(()),
                    _ => Err(
                        ScopeRepositoryError::Io(
                            match outcome {
                                StepOutcome::Failed(detail) => detail,
                                StepOutcome::NotFound(detail) => detail,
                                StepOutcome::Done => String::new(),
                            },
                        ),
                    ),
                },
            ),
        };
        (SaveRun { stage: after, path, bytes }, action)
    }
}

/// The stage after a course of steps.
pub open spec fn stage_after(outcomes: Seq<StepOutcome>) -> SaveStage
    decreases outcomes.len(),
{
    if outcomes.len() == 0 {
        SaveStage::Removing
    } else {
        next_stage(stage_after(outcomes.drop_last()), outcomes.last())
    }
}

/// Which step of a save a stage is.
pub open spec fn rank(stage: SaveStage) -> int {
    match stage {
        SaveStage::Removing => 0,
        SaveStage::Creating => 1,
        SaveStage::Writing => 2,
        SaveStage::Syncing => 3,
        SaveStage::Closing => 4,
        SaveStage::Renaming => 5,
        SaveStage::SyncingDirectory => 6,
        SaveStage::Finished => 7,
    }
}

/// The database is only ever replaced, and only by a file that was created fresh,
/// written whole and flushed to the disk: a save that gets to the rename has had
/// each of these steps done.
pub proof fn law_rename_follows_a_flushed_write(outcomes: Seq<StepOutcome>)
    ensures
        ({
            let reached = rank(stage_after(outcomes));
            &&& reached < 7 ==> outcomes.len() == reached
            &&& 1 < reached < 7 ==> outcomes[1] is Done
            &&& 2 < reached < 7 ==> outcomes[2] is Done
            &&& 3 < reached < 7 ==> outcomes[3] is Done
        }),
        stage_after(outcomes) is Renaming ==> outcomes.len() == 5 && outcomes[1] is Done
            && outcomes[2] is Done && outcomes[3] is Done,
    decreases outcomes.len(),
{
    if outcomes.len() > 0 {
        law_rename_follows_a_flushed_write(outcomes.drop_last());
        assert forall|i: int| 0 <= i < outcomes.len() - 1 implies #[trigger] outcomes[i] == outcomes.drop_last()[i] by {}
    }
}

/// Where the last dot is: inside the name or nowhere, and with no dot behind it.
proof fn lemma_last_dot(name: Seq<char>)
    ensures
        -1 <= last_dot(name) < name.len(),
        last_dot(name) >= 0 ==> name[last_dot(name)] == '.',
        forall|i: int| last_dot(name) < i < name.len() ==> #[trigger] name[i] != '.',
    decreases name.len(),
{
    if name.len() > 0 && name.last() != '.' {
        let rest = name.drop_last();
        lemma_last_dot(rest);
        assert forall|i: int| last_dot(name) < i < name.len() implies #[trigger] name[i] != '.' by {
            if i < rest.len() {
                assert(rest[i] == name[i]);
            }
        }
    }
}

/// A name ends within its path.
proof fn lemma_name_end(verbatim: bool, path: Seq<char>)
    ensures
        0 <= name_end(verbatim, path) <= path.len(),
        file_name(verbatim, path).len() <= name_end(verbatim, path),
        file_name(verbatim, path) == path.subrange(
            name_end(verbatim, path) - file_name(verbatim, path).len(),
            name_end(verbatim, path),
        ),
    decreases path.len(),
{
    if path.len() == 0 {
        assert(path.subrange(0, 0) =~= path);
    } else if ends_idly(verbatim, path) {
        let rest = path.drop_last();
        lemma_name_end(verbatim, rest);
        let end = name_end(verbatim, rest);
        let from = end - file_name(verbatim, rest).len();
        assert(rest.subrange(from, end) =~= path.subrange(from, end));
    } else {
        law_last_segment_is_a_tail(verbatim, path);
        let name = file_name(verbatim, path);
        assert(path.subrange(path.len() - name.len(), path.len() as int) =~= path.skip(
            path.len() - name.len(),
        ));
    }
}

/// The temporary file is never the database itself: writing it cannot touch the
/// database, wherever the database is.
pub proof fn law_temp_is_another_file(path: Seq<char>)
    requires
        path_file_name(path) is Some,
    ensures
        temp_of(path) != path,
{
    let verbatim = is_verbatim(path);
    let body = without_prefix(path);
    let name = file_name(verbatim, body);
    let end = name_end(verbatim, body);
    let dot = last_dot(name);
    let base = stem(verbatim, body);
    let temp = temp_of(path);
    let prefix = prefix_len(path) as int;
    reveal_strlit("json.tmp");
    lemma_last_dot(name);
    lemma_name_end(verbatim, body);
    law_prefix_is_a_head(path);
    if temp == path {
        let at = prefix + base.len();
        assert(temp.len() == at + 9);
        assert(temp[at as int] == '.');
        assert(temp[at + 1] == "json.tmp"@[0]);
        assert(temp[at + 5] == "json.tmp"@[4]);
        if name_extension(name) is Some {
            let extension = name_extension(name)->0;
            assert(base.len() == end - extension.len() - 1);
            assert(extension.len() == name.len() - dot - 1);
            let place = base.len() + 5;
            assert(body[place as int] == temp[at + 5]);
            assert(body[place as int] == '.');
            let i = place - (end - name.len());
            if place < end {
                assert(name[i] == body[place as int]);
            } else {
                assert(false);
            }
        } else {
            assert(base.len() == end);
            assert(body.last() == "json.tmp"@[7]);
            assert(segment_in(verbatim, body).last() == body.last());
            assert(!ends_idly(verbatim, body));
        }
    }
}

// ---- The disk ----

/// The disk, as far as a save is concerned.
#[verifier::ext_equal]
pub struct Disk {
    /// The files and what they hold.
    pub files: Map<Seq<char>, Seq<u8>>,
    /// The file that is open for writing.
    pub open: Option<Seq<char>>,
}

/// Do two disks differ in no file but this one?
pub open spec fn same_but(before: Disk, after: Disk, file: Seq<char>) -> bool {
    before.files.remove(file) == after.files.remove(file)
}

/// What a step does to the disk. Files stand only where a path leads to one. A
/// removal, a creation or a rename that fails changes no file, and a write that fails
/// changes none but the one it writes to.
pub open spec fn changes(before: Disk, action: SaveAction, outcome: StepOutcome, after: Disk) -> bool {
    match action {
        SaveAction::Remove(file) => match outcome {
            StepOutcome::Done => {
                &&& path_file_name(file@) is Some
                &&& after == (Disk { files: before.files.remove(file@), ..before })
            },
            StepOutcome::NotFound(_) => after == before && !before.files.dom().contains(file@),
            StepOutcome::Failed(_) => after == before,
        },
        SaveAction::Create(file) => if outcome is Done {
            &&& path_file_name(file@) is Some
            &&& !before.files.dom().contains(file@)
            &&& after == (Disk {
                files: before.files.insert(file@, Seq::empty()),
                open: Some(file@),
            })
        } else {
            after == before
        },
        SaveAction::Write(bytes) => match before.open {
            Some(file) => if outcome is Done {
                after == (Disk { files: before.files.insert(file, before.files[file] + bytes@), ..before })
            } else {
                same_but(before, after, file)
            },
            None => after == before,
        },
        SaveAction::Close => after == (Disk { open: None, ..before }),
        SaveAction::Rename { from, to } => if outcome is Done {
            &&& before.files.dom().contains(from@)
            &&& after == (Disk {
                files: before.files.remove(from@).insert(to@, before.files[from@]),
                ..before
            })
        } else {
            after == before
        },
        _ => after == before,
    }
}

/// A save, as far as it has come: it was begun with these bytes, each step was the
/// one that the repository asked for, and the disk changed accordingly.
pub open spec fn is_save(
    path: Seq<char>,
    bytes: Vec<u8>,
    runs: Seq<SaveRun>,
    actions: Seq<SaveAction>,
    outcomes: Seq<StepOutcome>,
    disks: Seq<Disk>,
) -> bool {
    &&& runs.len() == outcomes.len() + 1
    &&& actions.len() == outcomes.len() + 1
    &&& disks.len() == outcomes.len() + 1
    &&& save_begins(path, Ok(bytes), runs[0], actions[0])
    &&& forall|i: int|
        0 <= i < outcomes.len() ==> {
            &&& !(runs[i].stage is Finished)
            &&& save_follows(runs[i], #[trigger] outcomes[i], runs[i + 1], actions[i + 1])
            &&& changes(disks[i], actions[i], outcomes[i], disks[i + 1])
        }
}

/// Is a save over, and did it succeed?
pub open spec fn succeeded(action: SaveAction) -> bool {
    action matches SaveAction::Over(result) && result is Ok
}

/// What the disk holds at a stage of a save. Where the path leads to no file, a save
/// does not get past its first two steps, and the disk stays as it was.
pub open spec fn holds_at(
    stage: SaveStage,
    action: SaveAction,
    before: Disk,
    now: Disk,
    path: Seq<char>,
    bytes: Seq<u8>,
) -> bool {
    if path_file_name(path) is Some {
        progressed(stage, action, before, now, path, bytes)
    } else {
        &&& now == before
        &&& stage is Removing || stage is Creating || stage is Finished
        &&& !succeeded(action)
    }
}

/// What the disk holds at a stage of a save to a path that leads to a file.
pub open spec fn progressed(
    stage: SaveStage,
    action: SaveAction,
    before: Disk,
    now: Disk,
    path: Seq<char>,
    bytes: Seq<u8>,
) -> bool {
    let temp = temp_of(path);
    let written = now.files.dom().contains(temp) && now.files[temp] == bytes;
    match stage {
        SaveStage::Removing => now == before,
        SaveStage::Creating => same_but(before, now, temp) && !now.files.dom().contains(temp),
        SaveStage::Writing => {
            &&& same_but(before, now, temp)
            &&& now.open == Some(temp)
            &&& now.files.dom().contains(temp)
            &&& now.files[temp].len() == 0
        },
        SaveStage::Syncing => same_but(before, now, temp) && written,
        SaveStage::Closing => same_but(before, now, temp) && written,
        SaveStage::Renaming => same_but(before, now, temp) && written,
        SaveStage::SyncingDirectory => replaced(before, now, path, bytes),
        SaveStage::Finished => if succeeded(action) {
            replaced(before, now, path, bytes)
        } else {
            same_but(before, now, temp)
        },
    }
}

/// Was the database replaced by these bytes, with no temporary file left and
/// nothing else changed?
pub open spec fn replaced(before: Disk, after: Disk, path: Seq<char>, bytes: Seq<u8>) -> bool {
    after.files == before.files.remove(temp_of(path)).insert(path, bytes)
}

/// One step of a save keeps to what the disk is to hold.
proof fn lemma_save_step(
    run: SaveRun,
    action: SaveAction,
    outcome: StepOutcome,
    next: SaveRun,
    next_action: SaveAction,
    before: Disk,
    now: Disk,
    after: Disk,
    bytes: Seq<u8>,
)
    requires
        !(run.stage is Finished),
        performs_save(run.path@, bytes, run.stage, action),
        rank(run.stage) < 2 ==> run.bytes@ == bytes,
        save_follows(run, outcome, next, next_action),
        changes(now, action, outcome, after),
        holds_at(run.stage, action, before, now, run.path@, bytes),
    ensures
        next.path == run.path,
        rank(next.stage) < 2 ==> next.bytes@ == bytes,
        next.stage !is Finished ==> performs_save(run.path@, bytes, next.stage, next_action),
        holds_at(next.stage, next_action, before, after, run.path@, bytes),
{
    let path = run.path@;
    let temp = temp_of(path);
    let old_rest = before.files.remove(temp);
    if path_file_name(path) is Some {
        law_temp_is_another_file(path);
    } else {
        assert(temp == path);
    }
    match run.stage {
        SaveStage::Removing => {
            assert(now.files.remove(temp).remove(temp) =~= now.files.remove(temp));
        },
        SaveStage::Creating => {
            assert(now.files.insert(temp, Seq::empty()).remove(temp) =~= now.files.remove(temp));
        },
        SaveStage::Writing => {
            let text = now.files[temp] + bytes;
            assert(text =~= bytes);
            assert(now.files.insert(temp, text).remove(temp) =~= now.files.remove(temp));
        },
        SaveStage::Renaming => {
            if outcome is Done {
                assert(after.files =~= old_rest.insert(path, bytes));
            }
        },
        _ => {},
    }
}

/// After any number of its steps, a save has left the disk as its stage says.
proof fn lemma_save(
    path: Seq<char>,
    bytes: Vec<u8>,
    runs: Seq<SaveRun>,
    actions: Seq<SaveAction>,
    outcomes: Seq<StepOutcome>,
    disks: Seq<Disk>,
)
    requires
        is_save(path, bytes, runs, actions, outcomes, disks),
    ensures
        runs.last().path@ == path,
        rank(runs.last().stage) < 2 ==> runs.last().bytes@ == bytes@,
        runs.last().stage !is Finished ==> performs_save(path, bytes@, runs.last().stage, actions.last()),
        runs.last().stage is Finished <==> actions.last() is Over,
        holds_at(runs.last().stage, actions.last(), disks[0], disks.last(), path, bytes@),
    decreases outcomes.len(),
{
    if outcomes.len() > 0 {
        let last = outcomes.len() - 1;
        let (r, a, o, d) = (runs.drop_last(), actions.drop_last(), outcomes.drop_last(), disks.drop_last());
        assert(is_save(path, bytes, r, a, o, d)) by {
            assert forall|i: int| 0 <= i < o.len() implies {
                &&& !(r[i].stage is Finished)
                &&& save_follows(r[i], #[trigger] o[i], r[i + 1], a[i + 1])
                &&& changes(d[i], a[i], o[i], d[i + 1])
            } by {
                assert(save_follows(runs[i], outcomes[i], runs[i + 1], actions[i + 1]));
                assert(r[i] == runs[i] && r[i + 1] == runs[i + 1] && a[i] == actions[i]);
                assert(d[i] == disks[i] && d[i + 1] == disks[i + 1]);
            }
            assert(r[0] == runs[0] && a[0] == actions[0]);
        }
        lemma_save(path, bytes, r, a, o, d);
        assert(save_follows(runs[last], outcomes[last], runs[last + 1], actions[last + 1]));
        lemma_save_step(
            runs[last],
            actions[last],
            outcomes[last],
            runs[last + 1],
            actions[last + 1],
            disks[0],
            disks[last],
            disks[last + 1],
            bytes@,
        );
    }
}

/// A save that succeeds leaves the database with exactly the bytes that were to be
/// saved, no temporary file, and every other file as it was; a temporary file that a
/// crash left behind is no obstacle. A save that fails, or that breaks off after any
/// of its steps, leaves the database whole: as it was, or (once it is renamed) with
/// all of the bytes.
pub proof fn law_a_save_replaces_the_database_or_leaves_it(
    path: Seq<char>,
    bytes: Vec<u8>,
    runs: Seq<SaveRun>,
    actions: Seq<SaveAction>,
    outcomes: Seq<StepOutcome>,
    disks: Seq<Disk>,
)
    requires
        is_save(path, bytes, runs, actions, outcomes, disks),
    ensures
        succeeded(actions.last()) ==> {
            &&& replaced(disks[0], disks.last(), path, bytes@)
            &&& disks.last().files.dom().contains(path)
            &&& disks.last().files[path] == bytes@
            &&& !disks.last().files.dom().contains(temp_of(path))
        },
        actions.last() is Over && !succeeded(actions.last()) ==> {
            &&& same_but(disks[0], disks.last(), temp_of(path))
            &&& database(disks.last(), path) == database(disks[0], path)
        },
        database(disks.last(), path) == database(disks[0], path) || database(disks.last(), path) == Some(
            bytes@,
        ),
{
    lemma_save(path, bytes, runs, actions, outcomes, disks);
    if path_file_name(path) is Some {
        law_temp_is_another_file(path);
    }
    let temp = temp_of(path);
    let before = disks[0].files;
    let now = disks.last().files;
    if path_file_name(path) is Some && same_but(disks[0], disks.last(), temp) {
        assert(before.remove(temp).dom().contains(path) == now.remove(temp).dom().contains(path));
        assert(before.dom().contains(path) == now.dom().contains(path));
        if now.dom().contains(path) {
            assert(before.remove(temp)[path] == now.remove(temp)[path]);
        }
    }
}

/// What the file of a database holds; `None` = there is none.
pub open spec fn database(disk: Disk, path: Seq<char>) -> Option<Seq<u8>> {
    if disk.files.dom().contains(path) {
        Some(disk.files[path])
    } else {
        None
    }
}

/// Is this what reading the database gives, where `parse` reads its bytes?
pub open spec fn reads(
    disk: Disk,
    path: Seq<char>,
    parse: spec_fn(Seq<u8>) -> Result<ScopeState, String>,
    outcome: ReadOutcome,
) -> bool {
    match database(disk, path) {
        Some(bytes) => match parse(bytes) {
            Ok(state) => outcome == ReadOutcome::Parsed(state),
            Err(detail) => outcome == ReadOutcome::Malformed(detail),
        },
        None => outcome is Missing,
    }
}

/// What a load gives for what reading gave.
pub open spec fn loads(outcome: ReadOutcome, state: Result<ScopeState, ScopeRepositoryError>) -> bool {
    match outcome {
        ReadOutcome::Parsed(parsed) => state == Ok::<ScopeState, ScopeRepositoryError>(parsed),
        ReadOutcome::Malformed(detail) => state == Err::<ScopeState, ScopeRepositoryError>(
            ScopeRepositoryError::Corrupt(detail),
        ),
        ReadOutcome::Missing => state is Ok && state->Ok_0.wf() && state->Ok_0@.study_id.bits == 0
            && state->Ok_0@.sessions.len() == 0,
        ReadOutcome::Failed(detail) => state == Err::<ScopeState, ScopeRepositoryError>(
            ScopeRepositoryError::Io(detail),
        ),
    }
}

/// What was saved is what the next load gives, provided that the bytes parse back
/// into the state that they were written from; and after a save that failed, reading
/// the database gives what it gave before.
pub proof fn law_a_load_gives_what_was_saved(
    path: Seq<char>,
    state: ScopeState,
    bytes: Vec<u8>,
    parse: spec_fn(Seq<u8>) -> Result<ScopeState, String>,
    runs: Seq<SaveRun>,
    actions: Seq<SaveAction>,
    outcomes: Seq<StepOutcome>,
    disks: Seq<Disk>,
    outcome: ReadOutcome,
    loaded: Result<ScopeState, ScopeRepositoryError>,
)
    requires
        is_save(path, bytes, runs, actions, outcomes, disks),
        actions.last() is Over,
        reads(disks.last(), path, parse, outcome),
        loads(outcome, loaded),
    ensures
        succeeded(actions.last()) && parse(bytes@) == Ok::<ScopeState, String>(state) ==> loaded == Ok::<
            ScopeState,
            ScopeRepositoryError,
        >(state),
        !succeeded(actions.last()) ==> reads(disks[0], path, parse, outcome),
{
    law_a_save_replaces_the_database_or_leaves_it(path, bytes, runs, actions, outcomes, disks);
}

/// Volatile repository; the state simply lives in memory between boots.
#[derive(Debug)]
pub struct InMemoryScopeRepository {
    /// The state.
    pub state: ScopeState,
}

impl InMemoryScopeRepository {
    /// Preload with an initial state.
    pub fn with_state(state: ScopeState) -> (repository: Self)
        ensures
            repository.state == state,
    {
        InMemoryScopeRepository { state }
    }

    /// The state that was saved last.
    pub fn load(&self) -> (state: Result<ScopeState, ScopeRepositoryError>)
        ensures
            state is Ok,
            state->Ok_0@ == self.state@,
            self.state.wf() ==> state->Ok_0.wf(),
    {
        Ok(self.state.clone())
    }

    /// Keep a state.
    pub fn save(&mut self, state: &ScopeState) -> (saved: Result<(), ScopeRepositoryError>)
        ensures
            saved is Ok,
            final(self).state@ == state@,
            state.wf() ==> final(self).state.wf(),
    {
        self.state = state.clone();
        Ok(())
    }
}

impl Default for InMemoryScopeRepository {
    fn default() -> (repository: Self)
        ensures
            repository.state.wf(),
            repository.state@.study_id.bits == 0,
            repository.state@.sessions.len() == 0,
    {
        InMemoryScopeRepository { state: ScopeState::default() }
    }
}

/// Repository for local runs: it always loads a fresh state, so that every run is
/// a clean session 0, and saves to a JSON file for inspection.
#[derive(Debug)]
pub struct LocalScopeRepository {
    /// Where snapshots are saved.
    pub inner: JsonScopeRepository,
}

impl LocalScopeRepository {
    /// Bind to one snapshot path (such as `local-scope.json`).
    pub fn new(path: String) -> (repository: Self)
        ensures
            repository.inner.path == path,
    {
        LocalScopeRepository { inner: JsonScopeRepository::new(path) }
    }

    /// Always a fresh state: the previous run's file is never read back.
    pub fn load(&self) -> (state: Result<ScopeState, ScopeRepositoryError>)
        ensures
            state is Ok,
            state->Ok_0.wf(),
            state->Ok_0@.study_id.bits == 0,
            state->Ok_0@.sessions.len() == 0,
    {
        Ok(ScopeState::default())
    }

    /// Begin a save to the snapshot file, which goes as the file-backed one.
    pub fn save(&self, bytes: Result<Vec<u8>, String>) -> (begun: (SaveRun, SaveAction))
        ensures
            save_begins(self.inner.path@, bytes, begun.0, begun.1),
    {
        self.inner.save(bytes)
    }
}

} // verus!
