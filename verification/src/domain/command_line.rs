//! Windows command lines: splitting a line into its arguments, and quoting an
//! argument so that splitting gives it back.
//!
//! Rules of the split:
//! - white space separates arguments outside quotes;
//! - `"` toggles in-quote mode; `""` inside quotes yields a literal quote;
//! - `2n` backslashes before a quote stand for `n` backslashes, and the quote
//!   toggles; `2n + 1` stand for `n` backslashes and a literal quote;
//! - backslashes anywhere else stand for themselves.

use vstd::prelude::*;

use crate::text::{chars_of, is_space, is_whitespace, joined, views};

verus! {

/// The two ways a command line is split on Windows.
pub enum Dialect {
    /// Any white space separates, and `""` inside quotes is a literal quote.
    Shell,
    /// Blank and tab separate, and `""` inside quotes closes and reopens.
    Runtime,
}

/// Does `c` separate arguments outside quotes?
pub open spec fn separates(dialect: Dialect, c: char) -> bool {
    match dialect {
        Dialect::Shell => is_space(c),
        Dialect::Runtime => c == ' ' || c == '\t',
    }
}

/// The number of backslashes that the text starts with.
pub open spec fn backslash_run(text: Seq<char>) -> nat
    decreases text.len(),
{
    if text.len() > 0 && text[0] == '\\' {
        1 + backslash_run(text.skip(1))
    } else {
        0
    }
}

/// `count` backslashes.
pub open spec fn backslashes(count: nat) -> Seq<char> {
    Seq::new(count, |i: int| '\\')
}

/// The argument list of one open argument, if there is one.
pub open spec fn closing(token: Option<Seq<char>>) -> Seq<Seq<char>> {
    match token {
        Some(text) => seq![text],
        None => Seq::empty(),
    }
}

/// The characters of the open argument so far.
pub open spec fn so_far(token: Option<Seq<char>>) -> Seq<char> {
    match token {
        Some(text) => text,
        None => Seq::empty(),
    }
}

/// The arguments that `rest` yields when it is entered inside or outside quotes
/// and with the open argument `token` (`None`: between two arguments).
pub open spec fn argv_from(
    dialect: Dialect,
    rest: Seq<char>,
    in_quotes: bool,
    token: Option<Seq<char>>,
) -> Seq<Seq<char>>
    decreases rest.len(),
{
    proof {
        lemma_run_is_a_prefix(rest);
    }
    let run = backslash_run(rest);
    if rest.len() == 0 {
        closing(token)
    } else if run < rest.len() && rest[run as int] == '"' {
        let kept = so_far(token) + backslashes(run / 2);
        let after = rest.skip((run + 1) as int);
        if run % 2 == 1 {
            argv_from(dialect, after, in_quotes, Some(kept.push('"')))
        } else if dialect is Shell && in_quotes && after.len() > 0 && after[0] == '"' {
            argv_from(dialect, after.skip(1), in_quotes, Some(kept.push('"')))
        } else {
            argv_from(dialect, after, !in_quotes, Some(kept))
        }
    } else if run > 0 {
        argv_from(dialect, rest.skip(run as int), in_quotes, Some(so_far(token) + backslashes(run)))
    } else if separates(dialect, rest[0]) && !in_quotes {
        closing(token) + argv_from(dialect, rest.skip(1), in_quotes, None)
    } else {
        argv_from(dialect, rest.skip(1), in_quotes, Some(so_far(token).push(rest[0])))
    }
}

/// The arguments of a whole command line.
pub open spec fn argv(dialect: Dialect, line: Seq<char>) -> Seq<Seq<char>> {
    argv_from(dialect, line, false, None)
}

/// Must an argument be quoted to survive the split?
pub open spec fn needs_quotes(value: Seq<char>) -> bool {
    value.len() == 0 || exists|i: int| 0 <= i < value.len() && is_special(#[trigger] value[i])
}

/// The characters that force quotes.
pub open spec fn is_special(c: char) -> bool {
    c == ' ' || c == '\t' || c == '\n' || c == '\u{0B}' || c == '"'
}

/// An argument as it stands between its quotes: backslashes double before a
/// quote and at the end, and an embedded quote gets one more.
pub open spec fn escaped(value: Seq<char>) -> Seq<char>
    decreases value.len(),
{
    proof {
        lemma_run_is_a_prefix(value);
    }
    let run = backslash_run(value);
    if run == value.len() {
        backslashes(2 * run)
    } else if value[run as int] == '"' {
        backslashes(2 * run + 1).push('"') + escaped(value.skip((run + 1) as int))
    } else {
        backslashes(run).push(value[run as int]) + escaped(value.skip((run + 1) as int))
    }
}

/// An argument as it stands in a command line.
pub open spec fn quoted(value: Seq<char>) -> Seq<char> {
    if needs_quotes(value) {
        seq!['"'] + escaped(value) + seq!['"']
    } else {
        value
    }
}

/// The command line of the given arguments: each quoted, a blank between two.
pub open spec fn command_line(args: Seq<Seq<char>>) -> Seq<char> {
    joined(args.map_values(|arg: Seq<char>| quoted(arg)), seq![' '])
}

/// The run is a prefix of the text, and what follows it is no backslash.
pub proof fn lemma_run_is_a_prefix(text: Seq<char>)
    ensures
        backslash_run(text) <= text.len(),
        text.take(backslash_run(text) as int) == backslashes(backslash_run(text)),
        backslash_run(text) < text.len() ==> text[backslash_run(text) as int] != '\\',
    decreases text.len(),
{
    if text.len() > 0 && text[0] == '\\' {
        let rest = text.skip(1);
        let run = backslash_run(rest);
        lemma_run_is_a_prefix(rest);
        assert forall|i: int| 0 <= i < run + 1 implies text[i] == '\\' by {
            if i > 0 {
                assert(rest.take(run as int)[i - 1] == '\\');
            }
        }
        assert(text.take((run + 1) as int) =~= backslashes(run + 1));
    } else {
        assert(text.take(0) =~= backslashes(0));
    }
}

/// A run ends where another character, or nothing, follows it.
proof fn lemma_run_of(count: nat, rest: Seq<char>)
    requires
        rest.len() == 0 || rest[0] != '\\',
    ensures
        backslash_run(backslashes(count) + rest) == count,
    decreases count,
{
    if count == 0 {
        assert(backslashes(0) + rest =~= rest);
    } else {
        let whole = backslashes(count) + rest;
        assert(whole.skip(1) =~= backslashes((count - 1) as nat) + rest);
        lemma_run_of((count - 1) as nat, rest);
    }
}

/// The split of an escaped argument, up to and with its closing quote, is the
/// argument itself.
#[verifier::spinoff_prover]
#[verifier::rlimit(60)]
proof fn lemma_escaped_splits_back(
    dialect: Dialect,
    value: Seq<char>,
    tail: Seq<char>,
    text: Seq<char>,
)
    requires
        tail.len() == 0 || tail[0] != '"',
    ensures
        argv_from(dialect, escaped(value) + seq!['"'] + tail, true, Some(text)) == argv_from(
            dialect,
            tail,
            false,
            Some(text + value),
        ),
    decreases value.len(),
{
    lemma_run_is_a_prefix(value);
    let run = backslash_run(value);
    let line = escaped(value) + seq!['"'] + tail;
    if run == value.len() {
        let count = 2 * run;
        assert(line =~= backslashes(count) + (seq!['"'] + tail));
        lemma_run_of(count, seq!['"'] + tail);
        assert(line[count as int] == '"');
        assert(line.skip((count + 1) as int) =~= tail);
        assert(value =~= backslashes(run));
        assert(count / 2 == run);
    } else if value[run as int] == '"' {
        let count = 2 * run + 1;
        let next = value.skip((run + 1) as int);
        let rest = escaped(next) + seq!['"'] + tail;
        assert(line =~= backslashes(count) + (seq!['"'] + rest));
        lemma_run_of(count, seq!['"'] + rest);
        assert(line[count as int] == '"');
        assert(line.skip((count + 1) as int) =~= rest);
        assert(count / 2 == run && count % 2 == 1);
        let grown = (text + backslashes(run)).push('"');
        lemma_escaped_splits_back(dialect, next, tail, grown);
        assert(grown + next =~= text + value) by {
            assert(value =~= value.take(run as int) + seq!['"'] + next);
        }
    } else {
        let c = value[run as int];
        let next = value.skip((run + 1) as int);
        let rest = escaped(next) + seq!['"'] + tail;
        let stop = seq![c] + rest;
        assert(line =~= backslashes(run) + stop);
        lemma_run_of(run, stop);
        assert(line[run as int] == c);
        let kept = text + backslashes(run);
        assert(argv_from(dialect, line, true, Some(text)) == argv_from(
            dialect,
            stop,
            true,
            Some(kept),
        )) by {
            if run > 0 {
                assert(line.skip(run as int) =~= stop);
            } else {
                assert(line =~= stop);
                assert(kept =~= text);
            }
        }
        assert(stop.skip(1) =~= rest);
        assert(backslash_run(stop) == 0);
        let grown = kept.push(c);
        lemma_escaped_splits_back(dialect, next, tail, grown);
        assert(grown + next =~= text + value) by {
            assert(value =~= value.take(run as int) + seq![c] + next);
        }
    }
}

/// The split of an argument that stands without quotes is the argument itself.
#[verifier::spinoff_prover]
#[verifier::rlimit(60)]
proof fn lemma_plain_splits_back(
    dialect: Dialect,
    value: Seq<char>,
    tail: Seq<char>,
    token: Option<Seq<char>>,
)
    requires
        value.len() > 0,
        forall|i: int|
            0 <= i < value.len() ==> #[trigger] value[i] != '"' && !separates(dialect, value[i]),
        tail.len() == 0 || (tail[0] != '"' && tail[0] != '\\'),
    ensures
        argv_from(dialect, value + tail, false, token) == argv_from(
            dialect,
            tail,
            false,
            Some(so_far(token) + value),
        ),
    decreases value.len(),
{
    lemma_run_is_a_prefix(value);
    let run = backslash_run(value);
    let line = value + tail;
    if run == value.len() {
        assert(value =~= backslashes(run));
        lemma_run_of(run, tail);
        assert(line.skip(run as int) =~= tail);
    } else {
        let c = value[run as int];
        let next = value.skip((run + 1) as int);
        let stop = value.skip(run as int) + tail;
        assert(stop[0] == c);
        assert(line =~= backslashes(run) + stop) by {
            assert(value =~= value.take(run as int) + value.skip(run as int));
        }
        lemma_run_of(run, stop);
        assert(line[run as int] == c);
        let kept = so_far(token) + backslashes(run);
        if run > 0 {
            assert(line.skip(run as int) =~= stop);
            assert(backslash_run(stop) == 0);
            assert(argv_from(dialect, line, false, token) == argv_from(
                dialect,
                stop,
                false,
                Some(kept),
            ));
        } else {
            assert(line =~= stop);
            assert(kept =~= so_far(token));
        }
        let grown = kept.push(c);
        assert(stop.skip(1) =~= next + tail);
        assert(argv_from(dialect, line, false, token) == argv_from(
            dialect,
            next + tail,
            false,
            Some(grown),
        ));
        assert(grown + next =~= so_far(token) + value) by {
            assert(value =~= value.take(run as int) + seq![c] + next);
        }
        if next.len() > 0 {
            lemma_plain_splits_back(dialect, next, tail, Some(grown));
        } else {
            assert(next + tail =~= tail);
            assert(grown + next =~= grown);
        }
    }
}

/// White space that quoting does not watch for, but that the split would stop
/// at: an argument that holds it does not survive the round trip.
pub open spec fn splits_apart(dialect: Dialect, value: Seq<char>) -> bool {
    !needs_quotes(value) && exists|i: int|
        0 <= i < value.len() && separates(dialect, #[trigger] value[i])
}

proof fn lemma_quoted_splits_back(dialect: Dialect, value: Seq<char>, tail: Seq<char>)
    requires
        !splits_apart(dialect, value),
        tail.len() == 0 || (tail[0] != '"' && tail[0] != '\\'),
    ensures
        argv_from(dialect, quoted(value) + tail, false, None) == argv_from(
            dialect,
            tail,
            false,
            Some(value),
        ),
{
    if needs_quotes(value) {
        let line = quoted(value) + tail;
        let body = escaped(value) + seq!['"'] + tail;
        assert(line =~= seq!['"'] + body);
        assert(line[0] == '"');
        assert(backslash_run(line) == 0);
        assert(line.skip(1) =~= body);
        assert(Seq::<char>::empty() + backslashes(0) =~= Seq::<char>::empty());
        lemma_escaped_splits_back(dialect, value, tail, Seq::empty());
        assert(Seq::<char>::empty() + value =~= value);
    } else {
        assert forall|i: int| 0 <= i < value.len() implies #[trigger] value[i] != '"' && !separates(
            dialect,
            value[i],
        ) by {
            if value[i] == '"' {
                assert(is_special(value[i]));
            }
        }
        lemma_plain_splits_back(dialect, value, tail, None);
        assert(Seq::<char>::empty() + value =~= value);
    }
}

proof fn lemma_joined_from_the_front(parts: Seq<Seq<char>>, separator: Seq<char>)
    requires
        parts.len() > 1,
    ensures
        joined(parts, separator) == parts[0] + separator + joined(parts.skip(1), separator),
    decreases parts.len(),
{
    if parts.len() == 2 {
        assert(parts.drop_last() =~= seq![parts[0]]);
        assert(parts.skip(1) =~= seq![parts[1]]);
        assert(joined(parts.drop_last(), separator) == parts[0]);
        assert(joined(parts.skip(1), separator) == parts[1]);
    } else {
        lemma_joined_from_the_front(parts.drop_last(), separator);
        assert(parts.drop_last().skip(1) =~= parts.skip(1).drop_last());
        assert(joined(parts, separator) =~= parts[0] + separator + joined(
            parts.skip(1),
            separator,
        ));
    }
}

/// A blank ends the open argument.
proof fn lemma_blank_separates(dialect: Dialect, rest: Seq<char>, value: Seq<char>)
    ensures
        argv_from(dialect, seq![' '] + rest, false, Some(value)) == seq![value] + argv_from(
            dialect,
            rest,
            false,
            None,
        ),
{
    let line = seq![' '] + rest;
    assert(line[0] == ' ');
    assert(backslash_run(line) == 0);
    assert(line.skip(1) =~= rest);
}

/// A command line built from quoted arguments splits into exactly those
/// arguments, in either dialect. Left out are arguments that stand unquoted
/// although the dialect splits at a white space character inside them.
pub proof fn law_quoting_round_trips(dialect: Dialect, args: Seq<Seq<char>>)
    requires
        forall|i: int| 0 <= i < args.len() ==> !splits_apart(dialect, #[trigger] args[i]),
    ensures
        argv(dialect, command_line(args)) == args,
    decreases args.len(),
{
    let quote = |arg: Seq<char>| quoted(arg);
    let parts = args.map_values(quote);
    let blank = seq![' '];
    if args.len() == 0 {
        assert(command_line(args) =~= Seq::<char>::empty());
        assert(argv(dialect, command_line(args)) =~= args);
    } else if args.len() == 1 {
        let none = Seq::<char>::empty();
        assert(command_line(args) =~= quoted(args[0]) + none);
        lemma_quoted_splits_back(dialect, args[0], none);
        assert(argv_from(dialect, none, false, Some(args[0])) =~= args);
    } else {
        let rest = args.skip(1);
        let rest_line = command_line(rest);
        let tail = blank + rest_line;
        assert(command_line(args) == quoted(args[0]) + tail) by {
            assert(parts.skip(1) =~= rest.map_values(quote));
            lemma_joined_from_the_front(parts, blank);
            assert(parts[0] + blank + rest_line =~= parts[0] + tail);
        }
        lemma_quoted_splits_back(dialect, args[0], tail);
        lemma_blank_separates(dialect, rest_line, args[0]);
        assert forall|i: int| 0 <= i < rest.len() implies !splits_apart(
            dialect,
            #[trigger] rest[i],
        ) by {
            assert(rest[i] == args[i + 1]);
        }
        law_quoting_round_trips(dialect, rest);
        assert(seq![args[0]] + rest =~= args);
    }
}

/// Under the rules that `CreateProcess` targets are started by, every argument
/// list survives: only blanks and tabs split there, and quoting watches both.
pub proof fn law_runtime_round_trips(args: Seq<Seq<char>>)
    ensures
        argv(Dialect::Runtime, command_line(args)) == args,
{
    assert forall|i: int| 0 <= i < args.len() implies !splits_apart(
        Dialect::Runtime,
        #[trigger] args[i],
    ) by {
        let value = args[i];
        if splits_apart(Dialect::Runtime, value) {
            let at = choose|at: int|
                0 <= at < value.len() && separates(Dialect::Runtime, #[trigger] value[at]);
            assert(is_special(value[at]));
        }
    }
    law_quoting_round_trips(Dialect::Runtime, args);
}

/// `count` backslashes, appended.
pub fn push_backslashes(text: &mut String, count: usize)
    ensures
        final(text)@ == old(text)@ + backslashes(count as nat),
{
    let mut done: usize = 0;
    proof {
        assert(text@ =~= old(text)@ + backslashes(0));
    }
    while done < count
        invariant
            done <= count,
            text@ == old(text)@ + backslashes(done as nat),
        decreases count - done,
    {
        text.push('\\');
        done = done + 1;
        proof {
            assert(text@ =~= old(text)@ + backslashes(done as nat));
        }
    }
}

/// The length of the backslash run that starts at `at`.
pub fn run_at(chars: &Vec<char>, at: usize) -> (run: usize)
    requires
        at <= chars@.len(),
    ensures
        run == backslash_run(chars@.skip(at as int)),
        at + run <= chars@.len(),
        at + run < chars@.len() ==> chars@[at + run] != '\\',
{
    let mut stop: usize = at;
    proof {
        lemma_run_is_a_prefix(chars@.skip(at as int));
    }
    while stop < chars.len() && chars[stop] == '\\'
        invariant
            at <= stop <= chars@.len(),
            backslash_run(chars@.skip(at as int)) == stop - at + backslash_run(
                chars@.skip(stop as int),
            ),
        decreases chars@.len() - stop,
    {
        proof {
            assert(chars@.skip(stop as int).skip(1) =~= chars@.skip(stop + 1));
        }
        stop = stop + 1;
    }
    stop - at
}

/// Split a Windows-style command line into its arguments (the first one is the
/// program).
pub fn split_command_line(line: &str) -> (args: Vec<String>)
    ensures
        views(args@) == argv(Dialect::Shell, line@),
{
    let chars = chars_of(line);
    let mut args: Vec<String> = Vec::new();
    let mut current = String::new();
    let mut open: bool = false;
    let mut in_quotes: bool = false;
    let mut at: usize = 0;
    proof {
        assert(chars@.skip(0) =~= line@);
        assert(views(args@) =~= Seq::<Seq<char>>::empty());
        assert(views(args@) + argv(Dialect::Shell, line@) =~= argv(Dialect::Shell, line@));
    }
    while at < chars.len()
        invariant
            at <= chars@.len(),
            !open ==> current@.len() == 0,
            argv(Dialect::Shell, line@) == views(args@) + argv_from(
                Dialect::Shell,
                chars@.skip(at as int),
                in_quotes,
                if open {
                    Some(current@)
                } else {
                    None
                },
            ),
        decreases chars@.len() - at,
    {
        let ghost rest = chars@.skip(at as int);
        let ghost token = if open {
            Some(current@)
        } else {
            None
        };
        proof {
            assert(so_far(token) =~= current@);
        }
        let run = run_at(&chars, at);
        let stop: usize = at + run;
        if stop < chars.len() && chars[stop] == '"' {
            proof {
                assert(rest[run as int] == '"');
                assert(rest.skip((run + 1) as int) =~= chars@.skip(stop + 1));
            }
            push_backslashes(&mut current, run / 2);
            open = true;
            if run % 2 == 1 {
                current.push('"');
                at = stop + 1;
            } else if in_quotes && stop + 1 < chars.len() && chars[stop + 1] == '"' {
                proof {
                    assert(chars@.skip(stop + 1)[0] == '"');
                    assert(chars@.skip(stop + 1).skip(1) =~= chars@.skip(stop + 2));
                }
                current.push('"');
                at = stop + 2;
            } else {
                proof {
                    assert(stop + 1 < chars@.len() ==> chars@.skip(stop + 1)[0] == chars@[stop + 1]);
                }
                in_quotes = !in_quotes;
                at = stop + 1;
            }
        } else if run > 0 {
            proof {
                assert(stop < chars@.len() ==> rest[run as int] == chars@[stop as int]);
                assert(rest.skip(run as int) =~= chars@.skip(stop as int));
            }
            push_backslashes(&mut current, run);
            open = true;
            at = stop;
        } else if is_whitespace(chars[at]) && !in_quotes {
            proof {
                assert(rest[0] == chars@[at as int]);
                assert(rest.skip(1) =~= chars@.skip(at + 1));
            }
            if open {
                let ghost before = args@;
                let ghost done = current@;
                args.push(current);
                proof {
                    assert(views(args@) =~= views(before) + seq![done]);
                    let tail = argv_from(Dialect::Shell, rest.skip(1), in_quotes, None);
                    assert(views(before) + (seq![done] + tail) =~= views(args@) + tail);
                }
                current = String::new();
                open = false;
            } else {
                proof {
                    let tail = argv_from(Dialect::Shell, rest.skip(1), in_quotes, None);
                    assert(Seq::<Seq<char>>::empty() + tail =~= tail);
                }
            }
            at = at + 1;
        } else {
            proof {
                assert(rest[0] == chars@[at as int]);
                assert(rest.skip(1) =~= chars@.skip(at + 1));
            }
            current.push(chars[at]);
            open = true;
            at = at + 1;
        }
    }
    if open {
        let ghost before = args@;
        let ghost done = current@;
        args.push(current);
        proof {
            assert(views(args@) =~= views(before) + seq![done]);
        }
    } else {
        proof {
            assert(views(args@) + Seq::<Seq<char>>::empty() =~= views(args@));
        }
    }
    args
}

/// Words are cut at separators: one that holds neither a quote nor a separator is
/// an argument of its own, and separators before it are skipped.
pub proof fn law_words_are_cut_at_separators(
    dialect: Dialect,
    word: Seq<char>,
    separator: char,
    rest: Seq<char>,
)
    requires
        word.len() > 0,
        forall|i: int|
            0 <= i < word.len() ==> #[trigger] word[i] != '"' && !separates(dialect, word[i]),
        separates(dialect, separator),
    ensures
        argv(dialect, word) == seq![word],
        argv(dialect, word.push(separator) + rest) == seq![word] + argv(dialect, rest),
        argv(dialect, seq![separator] + rest) == argv(dialect, rest),
        argv(dialect, Seq::empty()) == Seq::<Seq<char>>::empty(),
{
    let none: Option<Seq<char>> = None;
    lemma_plain_splits_back(dialect, word, Seq::empty(), none);
    assert(word + Seq::<char>::empty() =~= word);
    assert(Seq::<char>::empty() + word =~= word);
    let tail = seq![separator] + rest;
    assert(word.push(separator) + rest =~= word + tail);
    lemma_plain_splits_back(dialect, word, tail, none);
    assert(tail.skip(1) =~= rest);
    assert(backslash_run(tail) == 0);
    assert(Seq::<Seq<char>>::empty() + argv(dialect, rest) =~= argv(dialect, rest));
}

/// Quotes keep separators: what stands between two quotes, without a backslash or
/// a quote in it, is an argument of its own, separators and all.
pub proof fn law_quotes_keep_separators(
    dialect: Dialect,
    inner: Seq<char>,
    separator: char,
    rest: Seq<char>,
)
    requires
        forall|i: int| 0 <= i < inner.len() ==> #[trigger] inner[i] != '"' && inner[i] != '\\',
        separates(dialect, separator),
    ensures
        argv(dialect, seq!['"'] + inner + seq!['"']) == seq![inner],
        argv(dialect, seq!['"'] + inner + seq!['"', separator] + rest) == seq![inner] + argv(
            dialect,
            rest,
        ),
{
    lemma_plain_is_its_own_escape(inner);
    let tail = seq![separator] + rest;
    let empty = Seq::<char>::empty();
    let quoted_only = seq!['"'] + inner + seq!['"'];
    let followed = seq!['"'] + inner + seq!['"', separator] + rest;
    lemma_escaped_splits_back(dialect, inner, empty, empty);
    lemma_escaped_splits_back(dialect, inner, tail, empty);
    assert(empty + inner =~= inner);
    assert(quoted_only.skip(1) =~= escaped(inner) + seq!['"'] + empty);
    assert(followed.skip(1) =~= escaped(inner) + seq!['"'] + tail);
    assert(backslash_run(quoted_only) == 0);
    assert(backslash_run(followed) == 0);
    assert(empty + backslashes(0) =~= empty);
    if inner.len() > 0 {
        assert(quoted_only.skip(1)[0] == inner[0]);
        assert(followed.skip(1)[0] == inner[0]);
    } else {
        lemma_empty_quotes(dialect, empty);
        lemma_empty_quotes(dialect, tail);
        assert(quoted_only =~= seq!['"', '"'] + empty);
        assert(followed =~= seq!['"', '"'] + tail);
        assert(inner =~= empty);
    }
    assert(tail.skip(1) =~= rest);
    assert(backslash_run(tail) == 0);
}

/// Two quotes with nothing between them begin an empty argument.
proof fn lemma_empty_quotes(dialect: Dialect, tail: Seq<char>)
    requires
        tail.len() == 0 || tail[0] != '"',
    ensures
        argv_from(dialect, seq!['"', '"'] + tail, false, None) == argv_from(
            dialect,
            tail,
            false,
            Some(Seq::empty()),
        ),
{
    let line = seq!['"', '"'] + tail;
    let second = seq!['"'] + tail;
    let empty = Seq::<char>::empty();
    assert(backslash_run(line) == 0);
    assert(backslash_run(second) == 0);
    assert(line.skip(1) =~= second);
    assert(second.skip(1) =~= tail);
    assert(empty + backslashes(0) =~= empty);
    assert(argv_from(dialect, line, false, None) == argv_from(dialect, second, true, Some(empty)));
    assert(argv_from(dialect, second, true, Some(empty)) == argv_from(
        dialect,
        tail,
        false,
        Some(empty),
    ));
}

/// Text without backslashes and quotes is its own escape.
proof fn lemma_plain_is_its_own_escape(text: Seq<char>)
    requires
        forall|i: int| 0 <= i < text.len() ==> #[trigger] text[i] != '"' && text[i] != '\\',
    ensures
        escaped(text) == text,
    decreases text.len(),
{
    assert(backslashes(0) =~= Seq::<char>::empty());
    if text.len() > 0 {
        let rest = text.skip(1);
        assert(text[0] != '"');
        assert forall|i: int| 0 <= i < rest.len() implies #[trigger] rest[i] != '"' && rest[i] != '\\' by {
            assert(rest[i] == text[i + 1]);
        }
        lemma_plain_is_its_own_escape(rest);
        assert(backslash_run(text) == 0);
        assert(escaped(text) =~= text);
    }
}

} // verus!
