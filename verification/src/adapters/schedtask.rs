//! Scheduled-task launcher: the command lines and the course of a launch.
//!
//! Per launch an `ONEVENT` task is created that runs the configured run-as helper
//! in the console user's security context, then run, then deleted. The task's
//! action quotes every element by the rules that `CreateProcess` targets are
//! started by. The task is deleted even when running it failed: a stale task must
//! not fire on the next matching event.

use vstd::prelude::*;

use crate::domain::command_line::{
    argv, backslashes, command_line, escaped, is_special, law_runtime_round_trips, lemma_run_is_a_prefix,
    needs_quotes, push_backslashes, quoted, run_at, Dialect,
};
use crate::ports::{joined_text, LaunchError, LaunchOutcome, LaunchSpec};
use crate::text::{chars_of, join, views};

verus! {

/// Scheduled-task name.
pub const TASK_NAME: &'static str = "SecOutfallLaunch";

/// Budget of each `schtasks` invocation, seconds.
pub const SCHTASKS_BUDGET_SECS: u64 = 15;

/// The trigger: Application log, `EventID 777`.
pub const EVENT_FILTER: &'static str = "*[System/EventID=777]";

/// Scheduled-task launcher over the run-as helper.
#[derive(Debug)]
pub struct SchedTaskLauncher {
    /// Run-as helper path, as configured.
    pub helper_path: String,
}

impl SchedTaskLauncher {
    /// Assemble the adapter around the configured helper.
    pub fn new(helper_path: String) -> (launcher: Self)
        ensures
            launcher.helper_path == helper_path,
    {
        SchedTaskLauncher { helper_path }
    }
}

/// Does the value hold a character that forces quotes, or nothing at all?
fn wants_quotes(chars: &Vec<char>) -> (wants: bool)
    ensures
        wants == needs_quotes(chars@),
{
    if chars.len() == 0 {
        return true;
    }
    let mut at: usize = 0;
    while at < chars.len()
        invariant
            at <= chars@.len(),
            forall|i: int| 0 <= i < at ==> !is_special(#[trigger] chars@[i]),
        decreases chars@.len() - at,
    {
        let c: char = chars[at];
        if c == ' ' || c == '\t' || c == '\n' || c == '\u{0B}' || c == '"' {
            proof {
                assert(is_special(chars@[at as int]));
            }
            return true;
        }
        at = at + 1;
    }
    false
}

/// Quote one argument with the standard Windows command-line rules (backslash
/// runs before quotes double up; a trailing backslash run before the closing
/// quote doubles). Values without specials pass through unquoted.
pub fn quote_argument(value: &str) -> (text: String)
    ensures
        text@ == quoted(value@),
{
    let chars = chars_of(value);
    if !wants_quotes(&chars) {
        return value.to_owned();
    }
    let mut text = String::new();
    text.push('"');
    let mut at: usize = 0;
    proof {
        assert(chars@.skip(0) =~= value@);
        assert(text@ =~= seq!['"']);
    }
    while at < chars.len()
        invariant
            at <= chars@.len(),
            seq!['"'] + escaped(value@) == text@ + escaped(chars@.skip(at as int)),
        decreases chars@.len() - at,
    {
        let ghost rest = chars@.skip(at as int);
        let ghost prior = text@;
        proof {
            lemma_run_is_a_prefix(rest);
        }
        let run = run_at(&chars, at);
        let stop: usize = at + run;
        if stop == chars.len() {
            push_backslashes(&mut text, run);
            push_backslashes(&mut text, run);
            at = stop;
            proof {
                assert(escaped(rest) == backslashes((2 * run) as nat));
                assert(backslashes(run as nat) + backslashes(run as nat) =~= backslashes(
                    (2 * run) as nat,
                ));
                assert(chars@.skip(at as int) =~= Seq::<char>::empty());
                assert(escaped(chars@.skip(at as int)) =~= Seq::<char>::empty());
                assert(text@ =~= prior + escaped(rest));
                assert(text@ + escaped(chars@.skip(at as int)) =~= text@);
            }
        } else if chars[stop] == '"' {
            push_backslashes(&mut text, run);
            push_backslashes(&mut text, run);
            text.push('\\');
            text.push('"');
            at = stop + 1;
            proof {
                assert(rest[run as int] == '"');
                assert(rest.skip(run + 1) =~= chars@.skip(at as int));
                let part = backslashes((2 * run + 1) as nat).push('"');
                assert(text@ =~= prior + part);
                assert(text@ + escaped(chars@.skip(at as int)) =~= prior + (part + escaped(
                    chars@.skip(at as int),
                )));
            }
        } else {
            push_backslashes(&mut text, run);
            text.push(chars[stop]);
            at = stop + 1;
            proof {
                assert(rest[run as int] == chars@[stop as int]);
                assert(rest.skip(run + 1) =~= chars@.skip(at as int));
                let part = backslashes(run as nat).push(chars@[stop as int]);
                assert(text@ =~= prior + part);
                assert(text@ + escaped(chars@.skip(at as int)) =~= prior + (part + escaped(
                    chars@.skip(at as int),
                )));
            }
        }
    }
    proof {
        assert(chars@.skip(chars@.len() as int) =~= Seq::<char>::empty());
        assert(escaped(Seq::<char>::empty()) =~= Seq::<char>::empty());
        assert(text@ + Seq::<char>::empty() =~= text@);
    }
    text.push('"');
    proof {
        assert(text@ =~= quoted(value@));
    }
    text
}

/// The arguments that the helper is meant to get.
pub open spec fn helper_argv(helper: Seq<char>, path: Seq<char>, args: Seq<Seq<char>>) -> Seq<Seq<char>> {
    seq![helper, "--path"@, path, "--"@] + args
}

/// The task action command line: `<helper> --path <target> -- <args...>`. This
/// text is stored as the task action and split again when it fires.
pub fn action_command_line(helper: &str, spec: &LaunchSpec) -> (line: String)
    ensures
        line@ == command_line(helper_argv(helper@, spec.path@, views(spec.args@))),
{
    let mut parts: Vec<String> = Vec::new();
    parts.push(quote_argument(helper));
    parts.push(quote_argument("--path"));
    parts.push(quote_argument(spec.path.as_str()));
    parts.push(quote_argument("--"));
    let ghost quote = |arg: Seq<char>| quoted(arg);
    let ghost all = helper_argv(helper@, spec.path@, views(spec.args@));
    let mut at: usize = 0;
    proof {
        assert(views(parts@) =~= all.map_values(quote).take(4));
    }
    while at < spec.args.len()
        invariant
            at <= spec.args@.len(),
            quote == (|arg: Seq<char>| quoted(arg)),
            all == helper_argv(helper@, spec.path@, views(spec.args@)),
            views(parts@) == all.map_values(quote).take(4 + at),
        decreases spec.args@.len() - at,
    {
        let ghost prior = views(parts@);
        parts.push(quote_argument(spec.args[at].as_str()));
        at = at + 1;
        proof {
            assert(all[4 + at - 1] == spec.args@[at - 1]@);
            assert(views(parts@) =~= prior.push(quoted(all[4 + at - 1])));
            assert(views(parts@) =~= all.map_values(quote).take(4 + at));
        }
    }
    proof {
        reveal_strlit(" ");
        assert(" "@ =~= seq![' ']);
        assert(views(parts@) =~= all.map_values(quote));
    }
    join(&parts, " ")
}

/// Whatever the target and its arguments are called (spaces, quotes, backslash
/// runs, nothing at all), the action splits back into exactly the arguments that
/// were meant when the task fires.
pub proof fn law_action_round_trips(helper: Seq<char>, path: Seq<char>, args: Seq<Seq<char>>)
    ensures
        argv(Dialect::Runtime, command_line(helper_argv(helper, path, args))) == helper_argv(
            helper,
            path,
            args,
        ),
{
    law_runtime_round_trips(helper_argv(helper, path, args));
}

/// The words `--path` and `--` stand in the action as they are.
pub proof fn law_helper_words_stay_bare()
    ensures
        quoted("--path"@) == "--path"@,
        quoted("--"@) == "--"@,
{
    reveal_strlit("--path");
    reveal_strlit("--");
}

// ---- The course of a launch ----

/// The account that the task runs under: `DOMAIN\user`, or the bare user where
/// there is no domain; `None` = nobody is logged on.
pub open spec fn account(user: Option<Seq<char>>, domain: Option<Seq<char>>) -> Option<Seq<char>> {
    match user {
        None => None,
        Some(user) => if user.len() == 0 {
            None
        } else {
            match domain {
                Some(domain) => if domain.len() > 0 {
                    Some(domain + seq!['\\'] + user)
                } else {
                    Some(user)
                },
                None => Some(user),
            }
        },
    }
}

/// The console session's user for the task.
pub fn console_session_user(user: Option<String>, domain: Option<String>) -> (name: Option<String>)
    ensures
        crate::text::opt_view(name) == account(
            crate::text::opt_view(user),
            crate::text::opt_view(domain),
        ),
{
    match user {
        None => None,
        Some(user) => {
            if user.as_str().is_empty() {
                return None;
            }
            match domain {
                Some(domain) => {
                    if domain.as_str().is_empty() {
                        return Some(user);
                    }
                    let mut name = domain;
                    name.push('\\');
                    name.append(user.as_str());
                    proof {
                        assert(name@ =~= domain@ + seq!['\\'] + user@);
                    }
                    Some(name)
                },
                None => Some(user),
            }
        },
    }
}

/// A launch in progress: each stage waits for the result of one `schtasks` call.
#[derive(Debug)]
pub enum TaskStage {
    /// The task is being created.
    Creating,
    /// The task is being run.
    Running,
    /// The task is being deleted; how the run went is kept.
    Deleting(Result<(), LaunchError>),
}

/// What the host does next.
#[derive(Debug)]
pub enum TaskAction {
    /// Call `schtasks` with these arguments.
    Call(Vec<String>),
    /// The launch is over.
    Over(Result<LaunchOutcome, LaunchError>),
}

/// The arguments that create the task.
pub open spec fn create_arguments(user: Seq<char>, action: Seq<char>) -> Seq<Seq<char>> {
    seq![
        "/Create"@,
        "/SC"@,
        "ONEVENT"@,
        "/EC"@,
        "Application"@,
        "/MO"@,
        EVENT_FILTER@,
        "/RU"@,
        user,
        "/RL"@,
        "HIGHEST"@,
        "/TN"@,
        TASK_NAME@,
        "/TR"@,
        action,
        "/F"@,
    ]
}

/// The arguments that run the task.
pub open spec fn run_arguments() -> Seq<Seq<char>> {
    seq!["/Run"@, "/I"@, "/TN"@, TASK_NAME@]
}

/// The arguments that delete the task.
pub open spec fn delete_arguments() -> Seq<Seq<char>> {
    seq!["/Delete"@, "/TN"@, TASK_NAME@, "/F"@]
}

/// Does an action call `schtasks` with these arguments?
pub open spec fn calls(action: TaskAction, arguments: Seq<Seq<char>>) -> bool {
    action matches TaskAction::Call(given) && views(given@) == arguments
}

/// How a launch begins: for a console user, with the creation of a task that runs
/// as this user; without one, not at all.
pub open spec fn task_begins(
    helper: Seq<char>,
    spec: LaunchSpec,
    user: Option<String>,
    begun: Result<(TaskStage, TaskAction), LaunchError>,
) -> bool {
    match begun {
        Ok((stage, action)) => {
            &&& user is Some
            &&& stage is Creating
            &&& calls(
                action,
                create_arguments(
                    user->0@,
                    command_line(helper_argv(helper, spec.path@, views(spec.args@))),
                ),
            )
        },
        Err(error) => user is None && error is NoInteractiveSession,
    }
}

/// How a launch goes on after one `schtasks` call.
pub open spec fn task_follows(
    stage: TaskStage,
    result: Result<(), LaunchError>,
    next: (Option<TaskStage>, TaskAction),
) -> bool {
    match (stage, result) {
        (TaskStage::Creating, Ok(_)) => next.0 == Some(TaskStage::Running) && calls(
            next.1,
            run_arguments(),
        ),
        (TaskStage::Creating, Err(error)) => next.0 is None && next.1 == TaskAction::Over(Err(error)),
        (TaskStage::Running, outcome) => next.0 == Some(TaskStage::Deleting(outcome)) && calls(
            next.1,
            delete_arguments(),
        ),
        (TaskStage::Deleting(Ok(_)), _) => next.0 is None && next.1 == TaskAction::Over(
            Ok(LaunchOutcome { pid: None }),
        ),
        (TaskStage::Deleting(Err(error)), _) => next.0 is None && next.1 == TaskAction::Over(Err(error)),
    }
}

impl SchedTaskLauncher {
    /// Begin a launch for the console session's user.
    pub fn launch(&self, spec: &LaunchSpec, user: Option<String>) -> (begun: Result<
        (TaskStage, TaskAction),
        LaunchError,
    >)
        ensures
            task_begins(self.helper_path@, *spec, user, begun),
    {
        let user = match user {
            Some(user) => user,
            None => return Err(LaunchError::NoInteractiveSession),
        };
        let action = action_command_line(self.helper_path.as_str(), spec);
        let mut arguments: Vec<String> = Vec::new();
        let ghost account = user@;
        let ghost line = action@;
        arguments.push("/Create".to_owned());
        arguments.push("/SC".to_owned());
        arguments.push("ONEVENT".to_owned());
        arguments.push("/EC".to_owned());
        arguments.push("Application".to_owned());
        arguments.push("/MO".to_owned());
        arguments.push(EVENT_FILTER.to_owned());
        arguments.push("/RU".to_owned());
        arguments.push(user);
        arguments.push("/RL".to_owned());
        arguments.push("HIGHEST".to_owned());
        arguments.push("/TN".to_owned());
        arguments.push(TASK_NAME.to_owned());
        arguments.push("/TR".to_owned());
        arguments.push(action);
        arguments.push("/F".to_owned());
        proof {
            assert(views(arguments@) =~= create_arguments(account, line));
        }
        Ok((TaskStage::Creating, TaskAction::Call(arguments)))
    }

    /// Take in the result of the last `schtasks` call. A failed deletion never
    /// masks how the run went.
    pub fn launch_step(stage: TaskStage, result: Result<(), LaunchError>) -> (next: (
        Option<TaskStage>,
        TaskAction,
    ))
        ensures
            task_follows(stage, result, next),
    {
        match stage {
            TaskStage::Creating => match result {
                Ok(_) => {
                    let mut arguments: Vec<String> = Vec::new();
                    arguments.push("/Run".to_owned());
                    arguments.push("/I".to_owned());
                    arguments.push("/TN".to_owned());
                    arguments.push(TASK_NAME.to_owned());
                    proof {
                        assert(views(arguments@) =~= run_arguments());
                    }
                    (Some(TaskStage::Running), TaskAction::Call(arguments))
                },
                Err(error) => (None, TaskAction::Over(Err(error))),
            },
            TaskStage::Running => {
                let mut arguments: Vec<String> = Vec::new();
                arguments.push("/Delete".to_owned());
                arguments.push("/TN".to_owned());
                arguments.push(TASK_NAME.to_owned());
                arguments.push("/F".to_owned());
                proof {
                    assert(views(arguments@) =~= delete_arguments());
                }
                (Some(TaskStage::Deleting(result)), TaskAction::Call(arguments))
            },
            TaskStage::Deleting(run) => match run {
                Ok(_) => (None, TaskAction::Over(Ok(LaunchOutcome { pid: None }))),
                Err(error) => (None, TaskAction::Over(Err(error))),
            },
        }
    }
}

// ---- Failures of schtasks ----

/// How one `schtasks` call ended.
#[derive(Debug)]
pub enum TaskCall {
    /// It succeeded.
    Succeeded,
    /// It did not end within its budget.
    TimedOut,
    /// It could not be started; the text says why.
    NotStarted(String),
    /// It failed: its status, and what it printed on stderr.
    Failed(String, String),
}

/// The longest part of stderr that a failure quotes, in characters.
pub const MAX_STDERR_CHARS: usize = 300;

/// The first characters of a text.
pub open spec fn head(text: Seq<char>, count: nat) -> Seq<char> {
    if text.len() <= count {
        text
    } else {
        text.take(count as int)
    }
}

/// A failed call in words; `stage` is the call's first argument.
pub open spec fn call_words(stage: Seq<char>, call: TaskCall) -> Seq<char> {
    match call {
        TaskCall::Succeeded => Seq::empty(),
        TaskCall::TimedOut => "schtasks "@ + stage + " timed out after 15 s"@,
        TaskCall::NotStarted(error) => "schtasks "@ + stage + " spawn failed: "@ + error@,
        TaskCall::Failed(status, stderr) => "schtasks "@ + stage + " failed ("@ + status@ + "): "@ + head(
            stderr@,
            MAX_STDERR_CHARS as nat,
        ),
    }
}

/// The result of one `schtasks` call.
pub fn run_schtasks(stage: &str, call: TaskCall) -> (result: Result<(), LaunchError>)
    ensures
        match result {
            Ok(_) => call is Succeeded,
            Err(error) => !(call is Succeeded) && (error matches LaunchError::Spawn(text) && text@
                == call_words(stage@, call)),
        },
{
    let mut text = joined_text("schtasks ", stage);
    match call {
        TaskCall::Succeeded => return Ok(()),
        TaskCall::TimedOut => {
            text.append(" timed out after 15 s");
        },
        TaskCall::NotStarted(error) => {
            text.append(" spawn failed: ");
            text.append(error.as_str());
        },
        TaskCall::Failed(status, stderr) => {
            text.append(" failed (");
            text.append(status.as_str());
            text.append("): ");
            let count: usize = stderr.as_str().unicode_len();
            if count <= MAX_STDERR_CHARS {
                text.append(stderr.as_str());
            } else {
                text.append(stderr.as_str().substring_char(0, MAX_STDERR_CHARS));
            }
        },
    }
    Err(LaunchError::Spawn(text))
}

} // verus!
