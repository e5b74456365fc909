//! Launchers: with the session user's token, the stand-in that explains itself,
//! and the recording one.
//!
//! A token launch takes the console session user's token, duplicates it into a
//! primary token and creates the process on the interactive desktop.

use vstd::prelude::*;

use crate::adapters::schedtask::quote_argument;
use crate::domain::command_line::{
    argv, backslash_run, command_line, escaped, law_runtime_round_trips, lemma_run_is_a_prefix, quoted, Dialect,
};
use crate::ports::{joined_text, LaunchError, LaunchOutcome, LaunchSpec};
use crate::text::{join, views};
use crate::utf16::{decoded, encode_utf16, encoded, law_utf16_round_trips, units_of};

verus! {

/// Native token-based launcher.
#[derive(Debug, Clone, Copy, PartialEq, Eq, Structural)]
pub struct TokenProcessLauncher;

/// Why the session user's token was refused.
#[derive(Debug, PartialEq, Eq)]
pub enum TokenRefusal {
    /// Access was denied: nobody is logged on.
    AccessDenied,
    /// Anything else; the text says what.
    Other(String),
}

/// The buffers of a process creation, UTF-16 with terminators.
#[derive(Debug)]
pub struct ProcessRequest {
    /// The program.
    pub application: Vec<u16>,
    /// The program and its arguments, one line.
    pub command_line: Vec<u16>,
    /// The working directory; empty = inherited.
    pub working_dir: Vec<u16>,
}

/// A text as a terminated buffer.
pub open spec fn terminated(text: Seq<char>) -> Seq<u16> {
    encoded(text).push(0)
}

/// The program and its arguments, in order.
pub open spec fn process_argv(path: Seq<char>, args: Seq<Seq<char>>) -> Seq<Seq<char>> {
    seq![path] + args
}

/// A text as a terminated buffer.
pub fn wide_null(text: &str) -> (units: Vec<u16>)
    ensures
        units@ == terminated(text@),
{
    let mut units = encode_utf16(text);
    units.push(0);
    units
}

/// The command line of a process creation: the program and its arguments, each
/// quoted so that the process gets them back.
pub fn process_command_line(spec: &LaunchSpec) -> (line: String)
    ensures
        line@ == command_line(process_argv(spec.path@, views(spec.args@))),
{
    let mut parts: Vec<String> = Vec::new();
    parts.push(quote_argument(spec.path.as_str()));
    let ghost quote = |arg: Seq<char>| quoted(arg);
    let ghost all = process_argv(spec.path@, views(spec.args@));
    let mut at: usize = 0;
    proof {
        assert(views(parts@) =~= all.map_values(quote).take(1));
    }
    while at < spec.args.len()
        invariant
            at <= spec.args@.len(),
            quote == (|arg: Seq<char>| quoted(arg)),
            all == process_argv(spec.path@, views(spec.args@)),
            views(parts@) == all.map_values(quote).take(1 + at),
        decreases spec.args@.len() - at,
    {
        let ghost prior = views(parts@);
        parts.push(quote_argument(spec.args[at].as_str()));
        at = at + 1;
        proof {
            assert(all[at as int] == spec.args@[at - 1]@);
            assert(views(parts@) =~= prior.push(quoted(all[at as int])));
            assert(views(parts@) =~= all.map_values(quote).take(1 + at));
        }
    }
    proof {
        reveal_strlit(" ");
        assert(" "@ =~= seq![' ']);
        assert(views(parts@) =~= all.map_values(quote));
    }
    join(&parts, " ")
}

/// The units of a buffer up to its first terminator: what the system reads.
pub open spec fn read_units(units: Seq<u16>) -> Seq<u16>
    decreases units.len(),
{
    if units.len() == 0 || units[0] == 0 {
        Seq::empty()
    } else {
        seq![units[0]] + read_units(units.skip(1))
    }
}

/// Does a text hold no NUL?
pub open spec fn nul_free(text: Seq<char>) -> bool {
    forall|i: int| 0 <= i < text.len() ==> #[trigger] text[i] != '\0'
}

proof fn lemma_units_are_read(text: Seq<char>)
    requires
        nul_free(text),
    ensures
        read_units(terminated(text)) == encoded(text),
    decreases text.len(),
{
    let units = terminated(text);
    if text.len() == 0 {
        assert(encoded(text) =~= Seq::<u16>::empty());
    } else {
        let head = units_of(text[0]);
        let rest = text.skip(1);
        assert forall|i: int| 0 <= i < rest.len() implies #[trigger] rest[i] != '\0' by {
            assert(rest[i] == text[i + 1]);
        }
        lemma_units_are_read(rest);
        assert(encoded(text) == head + encoded(rest));
        assert(units =~= head + terminated(rest));
        lemma_units_are_set(text[0]);
        assert(units.skip(1) =~= head.skip(1) + terminated(rest));
        if head.len() == 1 {
            assert(units.skip(1) =~= terminated(rest));
            assert(read_units(units) =~= encoded(text));
        } else {
            assert(units.skip(1).skip(1) =~= terminated(rest));
            assert(units.skip(1)[0] == head[1]);
            assert(read_units(units.skip(1)) =~= seq![head[1]] + encoded(rest));
            assert(read_units(units) =~= encoded(text));
        }
    }
}

/// The units of a character other than NUL are no terminators.
proof fn lemma_units_are_set(c: char)
    requires
        c != '\0',
    ensures
        units_of(c).len() == 1 || units_of(c).len() == 2,
        units_of(c)[0] != 0,
        units_of(c).len() == 2 ==> units_of(c)[1] != 0,
{
}

proof fn lemma_escaped_is_nul_free(value: Seq<char>)
    requires
        nul_free(value),
    ensures
        nul_free(escaped(value)),
    decreases value.len(),
{
    lemma_run_is_a_prefix(value);
    let run = backslash_run(value);
    if run < value.len() {
        let rest = value.skip((run + 1) as int);
        assert forall|i: int| 0 <= i < rest.len() implies #[trigger] rest[i] != '\0' by {
            assert(rest[i] == value[run + 1 + i]);
        }
        lemma_escaped_is_nul_free(rest);
    }
}

proof fn lemma_line_is_nul_free(args: Seq<Seq<char>>)
    requires
        forall|i: int| 0 <= i < args.len() ==> nul_free(#[trigger] args[i]),
    ensures
        nul_free(command_line(args)),
    decreases args.len(),
{
    if args.len() > 0 {
        let quote = |arg: Seq<char>| quoted(arg);
        let rest = args.drop_last();
        assert forall|i: int| 0 <= i < rest.len() implies nul_free(#[trigger] rest[i]) by {
            assert(rest[i] == args[i]);
        }
        lemma_line_is_nul_free(rest);
        lemma_escaped_is_nul_free(args.last());
        assert(args.map_values(quote).drop_last() =~= rest.map_values(quote));
        assert(args.map_values(quote).last() == quoted(args.last()));
    }
}

/// A process that is created from such a line gets the program and exactly the
/// arguments that were asked for: the system reads the buffer up to its terminator,
/// and what it reads splits into them. Left out are texts that hold a NUL, behind
/// which nothing is read.
pub proof fn law_the_process_gets_its_arguments(path: Seq<char>, args: Seq<Seq<char>>)
    requires
        nul_free(path),
        forall|i: int| 0 <= i < args.len() ==> nul_free(#[trigger] args[i]),
    ensures
        ({
            let line = command_line(process_argv(path, args));
            &&& decoded(read_units(terminated(line))) == Some(line)
            &&& argv(Dialect::Runtime, line) == process_argv(path, args)
        }),
{
    let all = process_argv(path, args);
    assert forall|i: int| 0 <= i < all.len() implies nul_free(#[trigger] all[i]) by {
        if i > 0 {
            assert(all[i] == args[i - 1]);
        }
    }
    lemma_line_is_nul_free(all);
    lemma_units_are_read(command_line(all));
    law_utf16_round_trips(command_line(all));
    law_runtime_round_trips(all);
}

/// A text without a nul, written as a terminated buffer, is read as that text.
pub proof fn law_a_text_is_read_back(text: Seq<char>)
    requires
        nul_free(text),
    ensures
        decoded(read_units(terminated(text))) == Some(text),
{
    lemma_units_are_read(text);
    law_utf16_round_trips(text);
}

/// The request that follows a duplicated token.
pub open spec fn requests(
    spec: LaunchSpec,
    result: Result<(), String>,
    next: Result<ProcessRequest, LaunchError>,
) -> bool {
    match (result, next) {
        (Ok(()), Ok(request)) => {
            &&& request.application@ == terminated(spec.path@)
            &&& request.command_line@ == terminated(
                command_line(process_argv(spec.path@, views(spec.args@))),
            )
            &&& request.working_dir@ == match spec.working_dir {
                Some(directory) => terminated(directory@),
                None => Seq::empty(),
            }
        },
        (Err(text), Err(error)) => error == LaunchError::Token(text),
        _ => false,
    }
}

/// What the answer to the query for the session's token comes to.
pub open spec fn token_answers(result: Result<(), TokenRefusal>, next: Result<(), LaunchError>) -> bool {
    match result {
        Ok(()) => next is Ok,
        Err(TokenRefusal::AccessDenied) => next == Err::<(), LaunchError>(
            LaunchError::NoInteractiveSession,
        ),
        Err(TokenRefusal::Other(text)) => next == Err::<(), LaunchError>(LaunchError::Token(text)),
    }
}

/// What the creation of the process comes to.
pub open spec fn launch_ends(
    result: Result<u32, String>,
    outcome: Result<LaunchOutcome, LaunchError>,
) -> bool {
    match result {
        Ok(pid) => outcome == Ok::<LaunchOutcome, LaunchError>(LaunchOutcome { pid: Some(pid) }),
        Err(text) => outcome == Err::<LaunchOutcome, LaunchError>(LaunchError::Spawn(text)),
    }
}

impl TokenProcessLauncher {
    /// Assemble the adapter.
    pub fn new() -> (launcher: Self)
        ensures
            launcher == TokenProcessLauncher,
    {
        TokenProcessLauncher
    }

    /// The session user's token was asked for. Nobody logged on is told apart
    /// from every other failure.
    pub fn token_queried(&self, result: Result<(), TokenRefusal>) -> (next: Result<(), LaunchError>)
        ensures
            token_answers(result, next),
    {
        match result {
            Ok(()) => Ok(()),
            Err(TokenRefusal::AccessDenied) => Err(LaunchError::NoInteractiveSession),
            Err(TokenRefusal::Other(text)) => Err(LaunchError::Token(text)),
        }
    }

    /// The token was duplicated into a primary token: create the process.
    pub fn token_duplicated(&self, spec: &LaunchSpec, result: Result<(), String>) -> (next: Result<
        ProcessRequest,
        LaunchError,
    >)
        ensures
            requests(*spec, result, next),
    {
        match result {
            Ok(()) => {},
            Err(text) => return Err(LaunchError::Token(text)),
        }
        let line = process_command_line(spec);
        let working_dir: Vec<u16> = match &spec.working_dir {
            Some(directory) => wide_null(directory.as_str()),
            None => Vec::new(),
        };
        Ok(
            ProcessRequest {
                application: wide_null(spec.path.as_str()),
                command_line: wide_null(line.as_str()),
                working_dir,
            },
        )
    }

    /// The process was created, or not.
    pub fn process_created(&self, result: Result<u32, String>) -> (outcome: Result<
        LaunchOutcome,
        LaunchError,
    >)
        ensures
            launch_ends(result, outcome),
    {
        match result {
            Ok(pid) => Ok(LaunchOutcome { pid: Some(pid) }),
            Err(text) => Err(LaunchError::Spawn(text)),
        }
    }
}

/// Always-failing launcher.
#[derive(Debug)]
pub struct UnavailableLauncher {
    /// Why launching is unavailable.
    pub reason: String,
}

impl UnavailableLauncher {
    /// Explain why launching is unavailable.
    pub fn new(reason: &str) -> (launcher: Self)
        ensures
            launcher.reason@ == reason@,
    {
        UnavailableLauncher { reason: reason.to_owned() }
    }

    /// Always refuses, with the reason.
    pub fn launch(&self, spec: &LaunchSpec) -> (outcome: Result<LaunchOutcome, LaunchError>)
        ensures
            outcome matches Err(LaunchError::Spawn(text)) && text@ == "launcher unavailable: "@
                + self.reason@,
    {
        Err(LaunchError::Spawn(joined_text("launcher unavailable: ", self.reason.as_str())))
    }
}

/// Records every launch request; never fails.
#[derive(Debug)]
pub struct FakeLauncher {
    /// All launch requests, in order.
    pub launched: Vec<LaunchSpec>,
    /// The pid of the next launch.
    pub next_pid: u32,
}

impl FakeLauncher {
    /// All launch requests, in order.
    pub fn launched(&self) -> (requests: &Vec<LaunchSpec>)
        ensures
            *requests == self.launched,
    {
        &self.launched
    }

    /// Record a launch; pids count up from 0.
    pub fn launch(&mut self, spec: LaunchSpec) -> (outcome: Result<LaunchOutcome, LaunchError>)
        ensures
            outcome == Ok::<LaunchOutcome, LaunchError>(LaunchOutcome { pid: Some(old(self).next_pid) }),
            final(self).launched@ == old(self).launched@.push(spec),
            final(self).next_pid == if old(self).next_pid == u32::MAX {
                0
            } else {
                old(self).next_pid + 1
            },
    {
        let pid: u32 = self.next_pid;
        self.launched.push(spec);
        self.next_pid = pid.wrapping_add(1);
        Ok(LaunchOutcome { pid: Some(pid) })
    }
}

impl Default for FakeLauncher {
    fn default() -> (launcher: Self)
        ensures
            launcher.launched@.len() == 0,
            launcher.next_pid == 0,
    {
        FakeLauncher { launched: Vec::new(), next_pid: 0 }
    }
}

} // verus!
