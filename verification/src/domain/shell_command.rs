//! Shell "open" command substitution: the document goes into the command line
//! that an association registers.

use vstd::prelude::*;

use crate::text::{chars_of, trim, trimmed};

verus! {

/// Substitution failures.
#[derive(Debug, Clone, Copy, PartialEq, Eq, Structural)]
pub enum ShellCommandError {
    /// The registry yielded an empty/whitespace command string.
    Empty,
}

impl ShellCommandError {
    /// The failure in words.
    pub fn message(&self) -> (text: &'static str)
        ensures
            text@ == "shell command is empty"@,
    {
        "shell command is empty"
    }
}

/// Is there a placeholder (`%1`, or its long-path alias `%L` in either case) at
/// this place?
pub open spec fn placeholder_at(command: Seq<char>, at: int) -> bool {
    &&& 0 <= at
    &&& at + 1 < command.len()
    &&& command[at] == '%'
    &&& (command[at + 1] == '1' || command[at + 1] == 'l' || command[at + 1] == 'L')
}

/// Is there any placeholder?
pub open spec fn has_placeholder(command: Seq<char>) -> bool {
    exists|at: int| #[trigger] placeholder_at(command, at)
}

/// The command with every placeholder replaced by the document, everything else
/// untouched.
pub open spec fn replaced(command: Seq<char>, document: Seq<char>) -> Seq<char>
    decreases command.len(),
{
    if command.len() == 0 {
        command
    } else if placeholder_at(command, 0) {
        document + replaced(command.skip(2), document)
    } else {
        seq![command[0]] + replaced(command.skip(1), document)
    }
}

/// The command line that opens the document: placeholders replaced, or the
/// quoted document appended where there is none.
pub open spec fn substituted(command: Seq<char>, document: Seq<char>) -> Seq<char> {
    if has_placeholder(command) {
        replaced(command, document)
    } else {
        command + seq![' ', '"'] + document + seq!['"']
    }
}

/// Without a placeholder there is nothing to replace.
pub proof fn law_no_placeholder_no_change(command: Seq<char>, document: Seq<char>)
    requires
        !has_placeholder(command),
    ensures
        replaced(command, document) == command,
    decreases command.len(),
{
    if command.len() > 0 {
        assert(!placeholder_at(command, 0));
        let rest = command.skip(1);
        assert forall|at: int| !#[trigger] placeholder_at(rest, at) by {
            if placeholder_at(rest, at) {
                assert(placeholder_at(command, at + 1));
            }
        }
        law_no_placeholder_no_change(rest, document);
        assert(seq![command[0]] + rest =~= command);
    }
}

/// Does `part` stand in `text` at this place?
pub open spec fn stands_at(text: Seq<char>, part: Seq<char>, at: int) -> bool {
    &&& 0 <= at
    &&& at + part.len() <= text.len()
    &&& text.subrange(at, at + part.len()) == part
}

/// The document is in the result, whatever the command says.
pub proof fn law_document_is_handed_over(command: Seq<char>, document: Seq<char>)
    ensures
        exists|at: int| #[trigger] stands_at(substituted(command, document), document, at),
{
    if has_placeholder(command) {
        lemma_replaced_holds_document(command, document);
        let at = choose|at: int| #[trigger] stands_at(replaced(command, document), document, at);
        assert(stands_at(substituted(command, document), document, at));
    } else {
        let whole = substituted(command, document);
        let at = command.len() as int + 2;
        assert(whole.subrange(at, at + document.len()) =~= document);
        assert(stands_at(whole, document, at));
    }
}

proof fn lemma_replaced_holds_document(command: Seq<char>, document: Seq<char>)
    requires
        has_placeholder(command),
    ensures
        exists|at: int| #[trigger] stands_at(replaced(command, document), document, at),
    decreases command.len(),
{
    let whole = replaced(command, document);
    if placeholder_at(command, 0) {
        assert(whole.subrange(0int, 0int + document.len()) =~= document);
        assert(stands_at(whole, document, 0));
    } else {
        let place = choose|at: int| #[trigger] placeholder_at(command, at);
        let rest = command.skip(1);
        assert(placeholder_at(rest, place - 1));
        lemma_replaced_holds_document(rest, document);
        let inner = replaced(rest, document);
        let at = choose|at: int| #[trigger] stands_at(inner, document, at);
        assert(whole.subrange(at + 1, at + 1 + document.len()) =~= inner.subrange(
            at,
            at + document.len(),
        ));
        assert(stands_at(whole, document, at + 1));
    }
}

/// Substitute the document into a registered `shell\open\command` string.
///
/// - `%1` (and its long-path alias `%L`, case-insensitive) is replaced with the
///   document path as it is: the template's own quotes provide the quoting.
/// - If no placeholder is present, the quoted document is appended.
/// - `%*`, `%2` and the like remain untouched.
///
/// The command is blank: [`ShellCommandError::Empty`].
pub fn substitute_command(command: &str, document: &str) -> (line: Result<
    String,
    ShellCommandError,
>)
    ensures
        match line {
            Ok(text) => trimmed(command@).len() > 0 && text@ == substituted(command@, document@),
            Err(ShellCommandError::Empty) => trimmed(command@).len() == 0,
        },
{
    if trim(command).is_empty() {
        return Err(ShellCommandError::Empty);
    }
    let chars = chars_of(command);
    let mut line = String::new();
    let mut found: bool = false;
    let mut at: usize = 0;
    proof {
        assert(chars@.skip(0) =~= command@);
        assert(line@ + replaced(command@, document@) =~= replaced(command@, document@));
    }
    while at < chars.len()
        invariant
            at <= chars@.len(),
            chars@ == command@,
            replaced(command@, document@) == line@ + replaced(chars@.skip(at as int), document@),
            found == exists|i: int| i < at && #[trigger] placeholder_at(command@, i),
        decreases chars@.len() - at,
    {
        let ghost rest = chars@.skip(at as int);
        let ghost prior = line@;
        if chars[at] == '%' && at + 1 < chars.len() && (chars[at + 1] == '1' || chars[at + 1] == 'l'
            || chars[at + 1] == 'L') {
            line.append(document);
            proof {
                assert(rest[0] == command@[at as int] && rest[1] == command@[at + 1]);
                assert(placeholder_at(rest, 0));
                assert(placeholder_at(command@, at as int));
                assert(rest.skip(2) =~= chars@.skip(at + 2));
                assert(prior + (document@ + replaced(rest.skip(2), document@)) =~= line@ + replaced(
                    rest.skip(2),
                    document@,
                ));
                assert(!placeholder_at(command@, at + 1));
            }
            found = true;
            at = at + 2;
        } else {
            line.push(chars[at]);
            proof {
                assert(rest[0] == command@[at as int]);
                if rest.len() > 1 {
                    assert(rest[1] == command@[at + 1]);
                }
                assert(!placeholder_at(rest, 0));
                assert(!placeholder_at(command@, at as int));
                assert(rest.skip(1) =~= chars@.skip(at + 1));
                assert(prior + (seq![rest[0]] + replaced(rest.skip(1), document@)) =~= line@
                    + replaced(rest.skip(1), document@));
            }
            at = at + 1;
        }
    }
    proof {
        assert(chars@.skip(chars@.len() as int) =~= Seq::<char>::empty());
        assert(line@ + Seq::<char>::empty() =~= line@);
    }
    if !found {
        proof {
            assert forall|i: int| !#[trigger] placeholder_at(command@, i) by {}
            law_no_placeholder_no_change(command@, document@);
        }
        line.push(' ');
        line.push('"');
        line.append(document);
        line.push('"');
        proof {
            assert(line@ =~= substituted(command@, document@));
        }
    }
    Ok(line)
}

} // verus!
