//! What the host's programs, tasks, associations and services are asked for.

use vstd::prelude::*;

use crate::adapters::clock::moved;
use crate::adapters::killer::{is_wanted, normalized, times, victims};
use crate::adapters::launcher::{
    launch_ends, law_a_text_is_read_back, law_the_process_gets_its_arguments, nul_free, read_units,
    requests, token_answers, ProcessRequest, TokenRefusal,
};
use crate::adapters::schedtask::{
    account, helper_argv, law_action_round_trips, task_begins, task_follows, TaskAction, TaskStage,
};
use crate::adapters::scope_store::temp_of;
use crate::adapters::service_control::{
    failed_with, install_next, install_result, uninstall_next, uninstall_result, InstallOptions,
    InstallStage, ScmReport, ServiceOpError, UninstallStage, ERROR_SERVICE_DOES_NOT_EXIST,
};
use crate::adapters::shell_association::{lookup_begins, lookup_follows, LookupAction, LookupStage};
use crate::domain::command_line::{argv, Dialect};
use crate::domain::image_name::{divides, is_verbatim, prefix_len};
use crate::domain::marker::bare_name;
use crate::domain::naming_laws::law_a_new_extension_replaces_the_old;
use crate::domain::path_laws::{law_extension_follows_the_dot, law_no_dot_no_extension};
use crate::domain::shell_command::substituted;
use crate::ports::{LaunchError, LaunchOutcome, LaunchSpec, ShellAssociationError};
use crate::text::{joined, lowercase, split_on, trimmed, views};
use crate::text_laws::law_splitting_undoes_joining;
use crate::utf16::decoded;

verus! {

// ---- Scheduled tasks ----

/// Does a value stand right behind a flag?
pub open spec fn flag_holds(arguments: Seq<Seq<char>>, flag: Seq<char>, value: Seq<char>) -> bool {
    exists|i: int|
        0 <= i < arguments.len() - 1 && #[trigger] arguments[i] == flag && arguments[i + 1] == value
}

/// The arguments that a call hands over.
pub open spec fn arguments_of(action: TaskAction) -> Seq<Seq<char>> {
    match action {
        TaskAction::Call(arguments) => views(arguments@),
        _ => Seq::empty(),
    }
}

/// A launch through a task creates one task, runs that task and deletes it again:
/// the three calls name the same task; the task runs as the console user; what it
/// runs is the helper, which gets the program's path and its arguments unharmed.
pub proof fn law_a_task_launches_the_program(
    helper: Seq<char>,
    spec: LaunchSpec,
    user: String,
    begun: (TaskStage, TaskAction),
    result: Result<(), LaunchError>,
    running: (Option<TaskStage>, TaskAction),
    deleting: (Option<TaskStage>, TaskAction),
)
    requires
        task_begins(helper, spec, Some(user), Ok(begun)),
        task_follows(begun.0, Ok(()), running),
        running.0 is Some ==> task_follows(running.0->0, result, deleting),
    ensures
        running.0 is Some,
        arguments_of(begun.1)[0] == "/Create"@,
        arguments_of(running.1)[0] == "/Run"@,
        arguments_of(deleting.1)[0] == "/Delete"@,
        flag_holds(arguments_of(begun.1), "/RU"@, user@),
        exists|name: Seq<char>|
            {
                &&& #[trigger] flag_holds(arguments_of(begun.1), "/TN"@, name)
                &&& flag_holds(arguments_of(running.1), "/TN"@, name)
                &&& flag_holds(arguments_of(deleting.1), "/TN"@, name)
            },
        exists|line: Seq<char>|
            {
                &&& #[trigger] flag_holds(arguments_of(begun.1), "/TR"@, line)
                &&& argv(Dialect::Runtime, line) == seq![helper, "--path"@, spec.path@, "--"@] + views(
                    spec.args@,
                )
            },
{
    let created = arguments_of(begun.1);
    let run = arguments_of(running.1);
    let deleted = arguments_of(deleting.1);
    let line = crate::domain::command_line::command_line(
        helper_argv(helper, spec.path@, views(spec.args@)),
    );
    assert(running.0 == Some(TaskStage::Running));
    let name = crate::adapters::schedtask::TASK_NAME@;
    assert(created == crate::adapters::schedtask::create_arguments(user@, line));
    assert(created[7] == "/RU"@ && created[8] == user@);
    assert(created[11] == "/TN"@ && created[12] == name);
    assert(created[13] == "/TR"@ && created[14] == line);
    assert(run[2] == "/TN"@ && run[3] == name);
    assert(deleted[1] == "/TN"@ && deleted[2] == name);
    assert(flag_holds(created, "/TN"@, name));
    assert(flag_holds(created, "/TR"@, line));
    law_action_round_trips(helper, spec.path@, views(spec.args@));
}

/// The launch succeeds exactly when the task could be created and run; a task
/// that was created is always deleted, whatever became of its run; and how the
/// deletion went changes nothing.
pub proof fn law_a_created_task_is_deleted(
    create: Result<(), LaunchError>,
    run: Result<(), LaunchError>,
    delete: Result<(), LaunchError>,
    created: (Option<TaskStage>, TaskAction),
    ran: (Option<TaskStage>, TaskAction),
    over: (Option<TaskStage>, TaskAction),
)
    requires
        task_follows(TaskStage::Creating, create, created),
        created.0 is Some ==> task_follows(created.0->0, run, ran),
        created.0 is Some && ran.0 is Some ==> task_follows(ran.0->0, delete, over),
    ensures
        create matches Err(error) ==> created.0 is None && created.1 == TaskAction::Over(Err(error)),
        create is Ok ==> {
            &&& created.0 is Some
            &&& ran.0 is Some
            &&& ran.1 is Call
            &&& over.0 is None
            &&& run is Ok ==> over.1 == TaskAction::Over(Ok(LaunchOutcome { pid: None }))
            &&& run matches Err(error) ==> over.1 == TaskAction::Over(Err(error))
        },
{
}

/// Without a console user there is no launch, and with one there is.
pub proof fn law_tasks_need_a_console_user(
    helper: Seq<char>,
    spec: LaunchSpec,
    user: Option<String>,
    begun: Result<(TaskStage, TaskAction), LaunchError>,
)
    requires
        task_begins(helper, spec, user, begun),
    ensures
        begun is Ok <==> user is Some,
        begun matches Err(error) ==> error is NoInteractiveSession,
{
}

/// An account is the domain and the user with a backslash between them, or the
/// user alone where no domain is known; without a user there is none.
pub proof fn law_accounts_name_domain_and_user(user: Option<Seq<char>>, domain: Option<Seq<char>>)
    ensures
        account(user, domain) is Some <==> user is Some && user->0.len() > 0,
        user is Some && user->0.len() > 0 && (domain is None || domain->0.len() == 0) ==> account(
            user,
            domain,
        ) == user,
        user is Some && user->0.len() > 0 && domain is Some && domain->0.len() > 0
            && !user->0.contains('\\') && !domain->0.contains('\\') ==> split_on(
            account(user, domain)->0,
            '\\',
        ) == seq![domain->0, user->0],
{
    if user is Some && user->0.len() > 0 && domain is Some && domain->0.len() > 0 && !user->0.contains(
        '\\',
    ) && !domain->0.contains('\\') {
        let parts = seq![domain->0, user->0];
        law_splitting_undoes_joining(parts, '\\');
        assert(parts.drop_last() =~= seq![domain->0]);
        reveal_with_fuel(joined, 3);
        assert(joined(parts, seq!['\\']) =~= account(user, domain)->0);
    }
}

// ---- Process requests ----

/// The request to start a program, read as the system reads it, names the
/// program, gives it its path and its arguments unharmed, and names the working
/// directory where there is one.
pub proof fn law_a_request_starts_its_program(spec: LaunchSpec, request: ProcessRequest)
    requires
        requests(spec, Ok(()), Ok(request)),
        nul_free(spec.path@),
        forall|i: int| 0 <= i < spec.args@.len() ==> nul_free((#[trigger] spec.args@[i])@),
        spec.working_dir matches Some(directory) ==> nul_free(directory@),
    ensures
        decoded(read_units(request.application@)) == Some(spec.path@),
        decoded(read_units(request.command_line@)) matches Some(line) && argv(Dialect::Runtime, line)
            == seq![spec.path@] + views(spec.args@),
        match spec.working_dir {
            Some(directory) => decoded(read_units(request.working_dir@)) == Some(directory@),
            None => request.working_dir@.len() == 0,
        },
{
    let args = views(spec.args@);
    assert forall|i: int| 0 <= i < args.len() implies nul_free(#[trigger] args[i]) by {
        assert(nul_free(spec.args@[i]@));
    }
    law_the_process_gets_its_arguments(spec.path@, args);
    law_a_text_is_read_back(spec.path@);
    if let Some(directory) = spec.working_dir {
        law_a_text_is_read_back(directory@);
    }
}

/// The pid that the system gave is the launch's outcome; a session without a user
/// is told as such, and any other refusal with the system's words.
pub proof fn law_the_system_answer_is_handed_on(
    query: Result<(), TokenRefusal>,
    token: Result<(), LaunchError>,
    created: Result<u32, String>,
    outcome: Result<LaunchOutcome, LaunchError>,
)
    requires
        token_answers(query, token),
        launch_ends(created, outcome),
    ensures
        token is Ok <==> query is Ok,
        token matches Err(error) ==> (error is NoInteractiveSession <==> query
            == Err::<(), TokenRefusal>(TokenRefusal::AccessDenied)),
        query matches Err(TokenRefusal::Other(text)) ==> (token matches Err(LaunchError::Token(words))
            && words@ == text@),
        created matches Ok(pid) ==> (outcome matches Ok(launched) && launched.pid == Some(pid)),
        created matches Err(text) ==> (outcome matches Err(LaunchError::Spawn(words)) && words@ == text@),
{
}

// ---- Associations ----

/// The command for a document is looked up under its extension, in lower case,
/// first; only where that has none, under the program id that the extension
/// names. The first command that is found gets the document; where none is found
/// the document is named in the error.
pub proof fn law_associations_are_looked_up_in_order(
    before: Seq<char>,
    extension: Seq<char>,
    values: Seq<Option<String>>,
    begun: (Option<LookupStage>, LookupAction),
    nexts: Seq<(Option<LookupStage>, LookupAction)>,
)
    requires
        ({
            let document = before.push('.') + extension;
            &&& extension.len() > 0
            &&& forall|i: int|
                0 <= i < extension.len() ==> #[trigger] extension[i] != '.' && extension[i] != '/'
                    && extension[i] != '\\'
            &&& prefix_len(document) < before.len()
            &&& !divides(is_verbatim(document), before.last())
            &&& lookup_begins(document, begun)
            &&& begun.0 is Some ==> lookup_follows(document, begun.0->0, values[0], nexts[0])
            &&& nexts[0].0 is Some ==> lookup_follows(document, nexts[0].0->0, values[1], nexts[1])
            &&& nexts[1].0 is Some ==> lookup_follows(document, nexts[1].0->0, values[2], nexts[2])
        }),
    ensures
        ({
            let document = before.push('.') + extension;
            let dotted = "."@ + lowercase(extension);
            let behind = "\\shell\\open\\command"@;
            &&& (begun.1 matches LookupAction::Read(key) && key@ == dotted + behind)
            &&& match values[0] {
                Some(command) => opens(nexts[0].1, command@, document),
                None => {
                    &&& (nexts[0].1 matches LookupAction::Read(key) && key@ == dotted)
                    &&& match values[1] {
                        Some(program) => {
                            &&& (nexts[1].1 matches LookupAction::Read(key) && key@ == program@ + behind)
                            &&& match values[2] {
                                Some(command) => opens(nexts[2].1, command@, document),
                                None => misses(nexts[2].1, document),
                            }
                        },
                        None => misses(nexts[1].1, document),
                    }
                },
            }
        }),
{
    law_extension_follows_the_dot(before, extension);
}

/// Does a lookup end with the document put into this command, or with a
/// complaint where the command is blank?
pub open spec fn opens(action: LookupAction, command: Seq<char>, document: Seq<char>) -> bool {
    if trimmed(command).len() > 0 {
        action matches LookupAction::Over(Ok(line)) && line@ == substituted(command, document)
    } else {
        action matches LookupAction::Over(Err(error)) && error is Unusable
    }
}

/// Does a lookup end with the complaint that nothing opens this document?
pub open spec fn misses(action: LookupAction, document: Seq<char>) -> bool {
    action matches LookupAction::Over(Err(ShellAssociationError::NotFound(named))) && named@ == document
}

/// A document without an extension is not looked up at all.
pub proof fn law_bare_documents_are_not_looked_up(
    document: Seq<char>,
    begun: (Option<LookupStage>, LookupAction),
)
    requires
        !document.contains('.'),
        lookup_begins(document, begun),
    ensures
        begun.0 is None,
        misses(begun.1, document),
{
    law_no_dot_no_extension(document);
}

// ---- Terminated processes ----

/// A sweep picks, in the order of the list, each process but the agent's own
/// whose image is wanted.
pub proof fn law_a_sweep_picks_in_order(
    names: Seq<Seq<char>>,
    processes: Seq<(u32, String)>,
    own_pid: u32,
)
    ensures
        victims(names, processes, own_pid) == processes.filter(
            |process: (u32, String)| process.0 != own_pid && is_wanted(names, process.1@),
        ).map_values(|process: (u32, String)| process.0),
    decreases processes.len(),
{
    reveal(Seq::filter);
    let keep = |process: (u32, String)| process.0 != own_pid && is_wanted(names, process.1@);
    let pid = |process: (u32, String)| process.0;
    if processes.len() > 0 {
        let front = processes.drop_last();
        law_a_sweep_picks_in_order(names, front, own_pid);
        assert(victims(names, processes, own_pid) =~= processes.filter(keep).map_values(pid));
    } else {
        assert(victims(names, processes, own_pid) =~= processes.filter(keep).map_values(pid));
    }
}

/// An image is wanted exactly when a listed name is its name, extension and case
/// aside.
pub proof fn law_images_are_wanted_by_name(names: Seq<Seq<char>>, image: Seq<char>)
    ensures
        is_wanted(names, image) <==> exists|i: int|
            0 <= i < names.len() && lowercase(bare_name(#[trigger] names[i])) == lowercase(
                bare_name(image),
            ),
        names.contains(image) ==> is_wanted(names, image),
{
    if is_wanted(names, image) {
        let i = choose|i: int|
            0 <= i < names.len() && normalized(#[trigger] names[i]) == normalized(image);
        assert(lowercase(bare_name(names[i])) == lowercase(bare_name(image)));
    }
    if exists|i: int|
        0 <= i < names.len() && lowercase(bare_name(#[trigger] names[i])) == lowercase(bare_name(image)) {
        let i = choose|i: int|
            0 <= i < names.len() && lowercase(bare_name(#[trigger] names[i])) == lowercase(
                bare_name(image),
            );
        assert(normalized(names[i]) == normalized(image));
    }
    if names.contains(image) {
        let i = choose|i: int| 0 <= i < names.len() && names[i] == image;
        assert(normalized(names[i]) == normalized(image));
    }
}

/// Every attempt counts as a kill or as a failure.
pub proof fn law_every_attempt_counts_once(results: Seq<bool>)
    ensures
        times(results, true) + times(results, false) == results.len(),
        times(results, true) == results.filter(|worked: bool| worked).len(),
    decreases results.len(),
{
    reveal(Seq::filter);
    if results.len() > 0 {
        law_every_attempt_counts_once(results.drop_last());
    }
}

// ---- The database ----

/// The file that a save writes first stands beside the database, under its name
/// with another extension.
pub proof fn law_the_draft_stands_beside_the_database(before: Seq<char>, extension: Seq<char>)
    requires
        extension.len() > 0,
        forall|i: int|
            0 <= i < extension.len() ==> #[trigger] extension[i] != '.' && extension[i] != '/'
                && extension[i] != '\\',
        prefix_len(before.push('.') + extension) < before.len(),
        !divides(is_verbatim(before.push('.') + extension), before.last()),
    ensures
        temp_of(before.push('.') + extension) == before.push('.') + "json.tmp"@,
{
    law_a_new_extension_replaces_the_old(before, extension, "json.tmp"@);
}

// ---- The clock ----

/// A clock that is moved and moved back shows its time again, and a move that
/// stays in range moves it by that much.
pub proof fn law_moves_undo_each_other(now_ms: i64, delta_ms: i64)
    requires
        delta_ms > i64::MIN,
    ensures
        i64::MIN <= moved(now_ms, delta_ms) <= i64::MAX,
        moved(moved(now_ms, delta_ms) as i64, (-delta_ms) as i64) == now_ms,
        i64::MIN <= now_ms + delta_ms <= i64::MAX ==> moved(now_ms, delta_ms) - now_ms == delta_ms,
{
}

// ---- The service ----

/// An installation that ends well got as far as it was asked to: the service was
/// created, and started where that was asked for. One that fails tells the step
/// and the words of the failure, and a service that is there already is told as
/// such.
pub proof fn law_an_installation_tells_how_it_ended(
    options: InstallOptions,
    stage: InstallStage,
    outcome: Result<(), String>,
)
    requires
        install_next(options, stage, outcome is Ok) is Finished,
        !(stage is Finished),
    ensures
        install_result(stage, outcome) is Ok ==> (stage is Describe && !options.start_after_install) || (
        stage is Start && outcome is Ok),
        stage is Describe ==> install_result(stage, outcome) is Ok,
        stage is Start && outcome is Ok ==> install_result(stage, outcome) is Ok,
        install_result(stage, outcome) matches Err(error) ==> {
            &&& error is AlreadyInstalled <==> stage is Lookup
            &&& error is Config <==> stage is Config
            &&& error is Io <==> stage is Executable
            &&& error matches ServiceOpError::Config(detail) ==> outcome == Err::<(), String>(detail)
            &&& error matches ServiceOpError::Io(detail) ==> outcome == Err::<(), String>(detail)
            &&& error matches ServiceOpError::Scm(detail) ==> outcome == Err::<(), String>(detail)
            &&& !(error is NotInstalled)
        },
{
}

/// A removal that ends well ended with the deletion; one that fails tells the
/// words of the failure, and a service that is not there is told as such.
pub proof fn law_a_removal_tells_how_it_ended(
    stage: UninstallStage,
    report: ScmReport,
    waited_ms: u64,
)
    requires
        uninstall_next(stage, report, waited_ms) is Finished,
        !(stage is Finished),
    ensures
        uninstall_result(stage, report) is Ok <==> stage is Delete && !(report is Failed),
        uninstall_result(stage, report) matches Err(error) ==> {
            &&& error is NotInstalled <==> stage is Open && failed_with(
                report,
                ERROR_SERVICE_DOES_NOT_EXIST,
            )
            &&& error is NotInstalled || (error matches ServiceOpError::Scm(detail) && (
            report matches ScmReport::Failed(_, words) && words == detail))
        },
{
}

} // verus!
