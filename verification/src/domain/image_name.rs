//! Names inside path texts.
//!
//! Paths are Windows paths wherever the code runs, so they are split as texts
//! on both separators: `std::path` goes by the separator of the host and would
//! see no component at all in `C:\Targets\evil.exe` on another system.

use vstd::prelude::*;

use crate::text::{chars_of, text_between};

verus! {

/// `/` or `\`.
pub open spec fn is_separator(c: char) -> bool {
    c == '/' || c == '\\'
}

/// Does `c` divide a path? In a verbatim path, which begins with `\\?\`, only the
/// backslash does.
pub open spec fn divides(verbatim: bool, c: char) -> bool {
    c == '\\' || (!verbatim && c == '/')
}

/// The text after the last division.
pub open spec fn segment_in(verbatim: bool, path: Seq<char>) -> Seq<char>
    decreases path.len(),
{
    if path.len() == 0 || divides(verbatim, path.last()) {
        Seq::empty()
    } else {
        segment_in(verbatim, path.drop_last()).push(path.last())
    }
}

/// The text after the last separator.
pub open spec fn last_segment(path: Seq<char>) -> Seq<char> {
    segment_in(false, path)
}

/// Is the end of a path left aside when its file is named? So are trailing
/// separators and, unless the path is verbatim, `.` segments.
pub open spec fn ends_idly(verbatim: bool, path: Seq<char>) -> bool {
    divides(verbatim, path.last()) || (!verbatim && segment_in(verbatim, path) == seq!['.'])
}

/// The name of the file a path leads to: its last segment, idle ends left aside.
pub open spec fn file_name(verbatim: bool, path: Seq<char>) -> Seq<char>
    decreases path.len(),
{
    if path.len() == 0 {
        path
    } else if ends_idly(verbatim, path) {
        file_name(verbatim, path.drop_last())
    } else {
        segment_in(verbatim, path)
    }
}

/// Where the name of the file ends.
pub open spec fn name_end(verbatim: bool, path: Seq<char>) -> int
    decreases path.len(),
{
    if path.len() == 0 {
        0
    } else if ends_idly(verbatim, path) {
        name_end(verbatim, path.drop_last())
    } else {
        path.len() as int
    }
}

// ---- Prefixes ----

/// Does a text begin with a drive, `C:`?
pub open spec fn has_drive(text: Seq<char>) -> bool {
    text.len() >= 2 && text[1] == ':' && ('a' <= text[0] <= 'z' || 'A' <= text[0] <= 'Z')
}

/// How long the first component of a text is.
pub open spec fn component_len(verbatim: bool, text: Seq<char>) -> nat
    decreases text.len(),
{
    if text.len() == 0 || divides(verbatim, text[0]) {
        0
    } else {
        1 + component_len(verbatim, text.skip(1))
    }
}

/// How long the second component of a text is, `0` where there is none.
pub open spec fn second_len(verbatim: bool, text: Seq<char>) -> nat {
    let first = component_len(verbatim, text);
    if first < text.len() {
        component_len(verbatim, text.skip(first as int + 1))
    } else {
        0
    }
}

/// Is a path verbatim: does it begin with `\\?\`?
pub open spec fn is_verbatim(path: Seq<char>) -> bool {
    path.len() >= 4 && path[0] == '\\' && path[1] == '\\' && path[2] == '?' && path[3] == '\\'
}

/// How much of what follows `\\?\` belongs to the prefix: `UNC\server\share`, a drive
/// that stands alone, or else one component.
pub open spec fn verbatim_len(rest: Seq<char>) -> nat {
    if rest.len() >= 4 && rest[0] == 'U' && rest[1] == 'N' && rest[2] == 'C' && is_separator(rest[3]) {
        let tail = rest.skip(4);
        let share = second_len(true, tail);
        4 + component_len(true, tail) + if share > 0 {
            1 + share
        } else {
            0
        }
    } else if has_drive(rest) && (rest.len() == 2 || is_separator(rest[2])) {
        2
    } else {
        component_len(true, rest)
    }
}

/// How long the prefix of a Windows path is: a verbatim one, a device `\\.\name`, a
/// share `\\server\share`, or a drive `C:`. A prefix names no file.
pub open spec fn prefix_len(path: Seq<char>) -> nat {
    if is_verbatim(path) {
        4 + verbatim_len(path.skip(4))
    } else if path.len() >= 2 && is_separator(path[0]) && is_separator(path[1]) {
        if path.len() >= 4 && path[2] == '.' && is_separator(path[3]) {
            4 + component_len(false, path.skip(4))
        } else {
            let server = component_len(false, path.skip(2));
            let share = second_len(false, path.skip(2));
            if server > 0 && share > 0 {
                2 + server + 1 + share
            } else {
                0
            }
        }
    } else if has_drive(path) {
        2
    } else {
        0
    }
}

proof fn lemma_component_len(verbatim: bool, text: Seq<char>)
    ensures
        component_len(verbatim, text) <= text.len(),
    decreases text.len(),
{
    if text.len() > 0 {
        lemma_component_len(verbatim, text.skip(1));
    }
}

/// A prefix is the beginning of its path.
pub proof fn law_prefix_is_a_head(path: Seq<char>)
    ensures
        prefix_len(path) <= path.len(),
        path.take(prefix_len(path) as int) + without_prefix(path) == path,
{
    lemma_component_len(false, path.skip(2));
    lemma_component_len(false, path.skip(4));
    lemma_component_len(true, path.skip(4));
    lemma_component_len(false, path.skip(2).skip(component_len(false, path.skip(2)) as int + 1));
    let tail = path.skip(4).skip(4);
    lemma_component_len(true, tail);
    lemma_component_len(true, tail.skip(component_len(true, tail) as int + 1));
    assert(path.take(prefix_len(path) as int) + without_prefix(path) =~= path);
}

/// The path without its prefix.
pub open spec fn without_prefix(path: Seq<char>) -> Seq<char> {
    path.skip(prefix_len(path) as int)
}

/// Is this no name of a file: nothing at all, or a directory's `.` or `..`?
pub open spec fn is_nameless(name: Seq<char>) -> bool {
    name.len() == 0 || name == seq!['.'] || name == seq!['.', '.']
}

/// The name of the file a path leads to.
pub open spec fn path_file_name(path: Seq<char>) -> Option<Seq<char>> {
    let name = file_name(is_verbatim(path), without_prefix(path));
    if is_nameless(name) {
        None
    } else {
        Some(name)
    }
}

/// The place of the last dot, `-1` when there is none.
pub open spec fn last_dot(name: Seq<char>) -> int
    decreases name.len(),
{
    if name.len() == 0 {
        -1
    } else if name.last() == '.' {
        name.len() - 1
    } else {
        last_dot(name.drop_last())
    }
}

/// The extension of a file name: what follows its last dot. A name without a
/// dot, a name whose only dot comes first and `..` have none.
pub open spec fn name_extension(name: Seq<char>) -> Option<Seq<char>> {
    if last_dot(name) <= 0 || name == seq!['.', '.'] {
        None
    } else {
        Some(name.skip(last_dot(name) + 1))
    }
}

/// The extension of the file a path leads to.
pub open spec fn path_extension(path: Seq<char>) -> Option<Seq<char>> {
    name_extension(file_name(is_verbatim(path), without_prefix(path)))
}

/// The path up to the end of its file name, without the extension.
pub open spec fn stem(verbatim: bool, path: Seq<char>) -> Seq<char> {
    match name_extension(file_name(verbatim, path)) {
        Some(extension) => path.take(name_end(verbatim, path) - extension.len() - 1),
        None => path.take(name_end(verbatim, path)),
    }
}

/// The path with the extension of its file replaced, or one given where there
/// was none; a path that leads to no file, as it is.
pub open spec fn extended(path: Seq<char>, extension: Seq<char>) -> Seq<char> {
    let body = without_prefix(path);
    let verbatim = is_verbatim(path);
    if is_nameless(file_name(verbatim, body)) {
        path
    } else {
        path.take(prefix_len(path) as int) + stem(verbatim, body) + seq!['.'] + extension
    }
}

proof fn lemma_last_segment(verbatim: bool, path: Seq<char>, from: int)
    requires
        0 <= from <= path.len(),
        from == 0 || divides(verbatim, path[from - 1]),
        forall|i: int| from <= i < path.len() ==> !divides(verbatim, #[trigger] path[i]),
    ensures
        segment_in(verbatim, path) == path.skip(from),
    decreases path.len(),
{
    if from < path.len() {
        let rest = path.drop_last();
        assert forall|i: int| from <= i < rest.len() implies !divides(verbatim, #[trigger] rest[i]) by {
            assert(rest[i] == path[i]);
        }
        lemma_last_segment(verbatim, rest, from);
        assert(path.skip(from) =~= rest.skip(from).push(path.last()));
    } else {
        assert(path.skip(from) =~= Seq::<char>::empty());
    }
}

/// A segment holds no separator and is the end of the path.
pub proof fn law_last_segment_is_a_tail(verbatim: bool, path: Seq<char>)
    ensures
        segment_in(verbatim, path).len() <= path.len(),
        segment_in(verbatim, path) == path.skip(path.len() - segment_in(verbatim, path).len()),
        forall|i: int|
            0 <= i < segment_in(verbatim, path).len() ==> !divides(verbatim, #[trigger] segment_in(verbatim, path)[i]),
        segment_in(verbatim, path).len() < path.len() ==> divides(verbatim, 
            path[path.len() - segment_in(verbatim, path).len() - 1],
        ),
    decreases path.len(),
{
    if path.len() > 0 && !divides(verbatim, path.last()) {
        let rest = path.drop_last();
        law_last_segment_is_a_tail(verbatim, rest);
        assert(path.skip(path.len() - segment_in(verbatim, path).len()) =~= segment_in(verbatim, path));
    } else {
        assert(path.skip(path.len() as int) =~= segment_in(verbatim, path));
    }
}

/// Where the last segment of `chars[..to]` starts.
fn segment_start(verbatim: bool, chars: &Vec<char>, to: usize) -> (from: usize)
    requires
        to <= chars@.len(),
    ensures
        from <= to,
        segment_in(verbatim, chars@.take(to as int)) == chars@.subrange(from as int, to as int),
{
    let mut from: usize = to;
    while from > 0 && chars[from - 1] != '\\' && (verbatim || chars[from - 1] != '/')
        invariant
            from <= to <= chars@.len(),
            forall|i: int| from <= i < to ==> !divides(verbatim, #[trigger] chars@[i]),
        decreases from,
    {
        from = from - 1;
    }
    proof {
        let path = chars@.take(to as int);
        lemma_last_segment(verbatim, path, from as int);
        assert(path.skip(from as int) =~= chars@.subrange(from as int, to as int));
    }
    from
}

/// Last path segment, splitting on both `/` and `\`.
///
/// A path that is only separators (or ends with one) yields an empty text,
/// which no expectation ever matches.
pub fn image_name(path: &str) -> (name: &str)
    ensures
        name@ == last_segment(path@),
{
    let chars = chars_of(path);
    let from = segment_start(false, &chars, chars.len());
    proof {
        assert(chars@.take(chars@.len() as int) =~= path@);
    }
    path.substring_char(from, chars.len())
}

/// The place where a file name in `chars` starts and the one where it ends.
fn name_span(verbatim: bool, chars: &Vec<char>) -> (span: (usize, usize))
    ensures
        span.0 <= span.1 <= chars@.len(),
        span.1 == name_end(verbatim, chars@),
        file_name(verbatim, chars@) == chars@.subrange(span.0 as int, span.1 as int),
{
    let mut to: usize = chars.len();
    let mut from: usize = segment_start(verbatim, chars, to);
    proof {
        assert(chars@.take(to as int) =~= chars@);
    }
    while to > 0 && (from == to || (!verbatim && from + 1 == to && chars[from] == '.'))
        invariant
            from <= to <= chars@.len(),
            segment_in(verbatim, chars@.take(to as int)) == chars@.subrange(from as int, to as int),
            file_name(verbatim, chars@) == file_name(verbatim, chars@.take(to as int)),
            name_end(verbatim, chars@) == name_end(verbatim, chars@.take(to as int)),
        decreases to,
    {
        proof {
            let path = chars@.take(to as int);
            let segment = segment_in(verbatim, path);
            if from == to {
                assert(segment.len() == 0);
                assert(divides(verbatim, path.last()));
            } else {
                assert(segment =~= seq!['.']);
            }
            assert(path.drop_last() =~= chars@.take(to - 1));
        }
        to = to - 1;
        from = segment_start(verbatim, chars, to);
    }
    proof {
        let path = chars@.take(to as int);
        if to > 0 {
            assert(segment_in(verbatim, path).len() == to - from);
            if segment_in(verbatim, path) == seq!['.'] {
                assert(chars@[from as int] == segment_in(verbatim, path)[0]);
            }
            assert(!divides(verbatim, path.last()));
        }
        assert(file_name(verbatim, chars@) =~= chars@.subrange(from as int, to as int));
    }
    (from, to)
}

/// Where the extension of the name `chars[from..to]` starts, behind its dot;
/// `None` = it has none.
fn extension_start(chars: &Vec<char>, from: usize, to: usize) -> (start: Option<usize>)
    requires
        from <= to <= chars@.len(),
    ensures
        ({
            let name = chars@.subrange(from as int, to as int);
            match start {
                Some(after) => {
                    &&& from < after <= to
                    &&& after == from + last_dot(name) + 1
                    &&& name_extension(name) == Some(chars@.subrange(after as int, to as int))
                },
                None => name_extension(name) is None,
            }
        }),
{
    let ghost name = chars@.subrange(from as int, to as int);
    proof {
        assert(name.take(to - from) =~= name);
    }
    let mut after: usize = to;
    while after > from && chars[after - 1] != '.'
        invariant
            from <= after <= to <= chars@.len(),
            name == chars@.subrange(from as int, to as int),
            last_dot(name) == last_dot(name.take(after - from)),
        decreases after,
    {
        proof {
            assert(name.take(after - from).drop_last() =~= name.take(after - from - 1));
        }
        after = after - 1;
    }
    proof {
        let kept = name.take(after - from);
        assert(after > from ==> kept.last() == '.');
        assert(last_dot(name) == after - from - 1);
        assert(name == seq!['.', '.'] <==> (to - from == 2 && chars@[from as int] == '.' && chars@[from
            + 1] == '.')) by {
            if to - from == 2 {
                assert(name[0] == chars@[from as int] && name[1] == chars@[from + 1]);
                if chars@[from as int] == '.' && chars@[from + 1] == '.' {
                    assert(name =~= seq!['.', '.']);
                }
            }
        }
    }
    if after - from <= 1 || (to - from == 2 && chars[from] == '.' && chars[from + 1] == '.') {
        None
    } else {
        proof {
            assert(name.skip(after - from) =~= chars@.subrange(after as int, to as int));
        }
        Some(after)
    }
}

/// Where the component that starts at `from` ends.
fn component_end(verbatim: bool, chars: &Vec<char>, from: usize) -> (end: usize)
    requires
        from <= chars@.len(),
    ensures
        from <= end <= chars@.len(),
        end == from + component_len(verbatim, chars@.skip(from as int)),
{
    let mut end: usize = from;
    while end < chars.len() && chars[end] != '\\' && (verbatim || chars[end] != '/')
        invariant
            from <= end <= chars@.len(),
            component_len(verbatim, chars@.skip(from as int)) == end - from + component_len(
                verbatim,
                chars@.skip(end as int),
            ),
        decreases chars@.len() - end,
    {
        proof {
            assert(chars@.skip(end as int).skip(1) =~= chars@.skip(end + 1));
        }
        end = end + 1;
    }
    proof {
        assert(end < chars@.len() ==> chars@.skip(end as int)[0] == chars@[end as int]);
    }
    end
}

/// Where the component behind the one that starts at `from` ends.
fn second_end(verbatim: bool, chars: &Vec<char>, from: usize) -> (ends: (usize, usize))
    requires
        from <= chars@.len(),
    ensures
        from <= ends.0 <= chars@.len(),
        ends.0 == from + component_len(verbatim, chars@.skip(from as int)),
        ends.1 <= chars@.len(),
        ends.1 == if second_len(verbatim, chars@.skip(from as int)) > 0 {
            ends.0 + 1 + second_len(verbatim, chars@.skip(from as int))
        } else {
            ends.0 as int
        },
{
    let first = component_end(verbatim, chars, from);
    if first < chars.len() {
        proof {
            assert(chars@.skip(from as int).skip(first - from + 1) =~= chars@.skip(first + 1));
        }
        let second = component_end(verbatim, chars, first + 1);
        if second > first + 1 {
            (first, second)
        } else {
            (first, first)
        }
    } else {
        (first, first)
    }
}

/// Does `chars[from..]` begin with a drive?
fn drive_at(chars: &Vec<char>, from: usize) -> (drive: bool)
    requires
        from <= chars@.len(),
    ensures
        drive == has_drive(chars@.skip(from as int)),
{
    chars.len() - from >= 2 && chars[from + 1] == ':' && (('a' <= chars[from] && chars[from] <= 'z') || (
    'A' <= chars[from] && chars[from] <= 'Z'))
}

/// Is this a separator?
fn separator(c: char) -> (is: bool)
    ensures
        is == is_separator(c),
{
    c == '/' || c == '\\'
}

/// Is a path verbatim?
fn verbatim_path(chars: &Vec<char>) -> (verbatim: bool)
    ensures
        verbatim == is_verbatim(chars@),
{
    chars.len() >= 4 && chars[0] == '\\' && chars[1] == '\\' && chars[2] == '?' && chars[3] == '\\'
}

/// Where the prefix of a path ends.
fn prefix_end(chars: &Vec<char>) -> (end: usize)
    ensures
        end == prefix_len(chars@),
        end <= chars@.len(),
{
    if verbatim_path(chars) {
        let ghost rest = chars@.skip(4);
        if chars.len() >= 8 && chars[4] == 'U' && chars[5] == 'N' && chars[6] == 'C' && separator(chars[7]) {
            proof {
                assert(rest.skip(4) =~= chars@.skip(8));
            }
            second_end(true, chars, 8).1
        } else if drive_at(chars, 4) && (chars.len() == 6 || separator(chars[6])) {
            6
        } else {
            component_end(true, chars, 4)
        }
    } else if chars.len() >= 2 && separator(chars[0]) && separator(chars[1]) {
        if chars.len() >= 4 && chars[2] == '.' && separator(chars[3]) {
            component_end(false, chars, 4)
        } else {
            let (server, share) = second_end(false, chars, 2);
            if server > 2 && share > server {
                share
            } else {
                0
            }
        }
    } else {
        proof {
            assert(chars@.skip(0) =~= chars@);
        }
        if drive_at(chars, 0) {
            2
        } else {
            0
        }
    }
}

/// The name of the file that `path` leads to; `None` where it leads to none.
pub fn file_name_of(path: &str) -> (name: Option<String>)
    ensures
        crate::text::opt_view(name) == path_file_name(path@),
{
    let all = chars_of(path);
    let verbatim = verbatim_path(&all);
    let text = text_between(&all, prefix_end(&all), all.len());
    let chars = chars_of(text.as_str());
    proof {
        assert(chars@ =~= without_prefix(path@));
    }
    let (from, to) = name_span(verbatim, &chars);
    if nameless_span(&chars, from, to) {
        None
    } else {
        Some(text_between(&chars, from, to))
    }
}

/// Is `chars[from..to]` no name of a file?
fn nameless_span(chars: &Vec<char>, from: usize, to: usize) -> (nameless: bool)
    requires
        from <= to <= chars@.len(),
    ensures
        nameless == is_nameless(chars@.subrange(from as int, to as int)),
{
    proof {
        let name = chars@.subrange(from as int, to as int);
        if to - from == 2 {
            assert(name[0] == chars@[from as int] && name[1] == chars@[from + 1]);
            if chars@[from as int] == '.' && chars@[from + 1] == '.' {
                assert(name =~= seq!['.', '.']);
            }
        }
        if name == seq!['.', '.'] {
            assert(name.len() == 2 && name[0] == '.' && name[1] == '.');
        }
        if to - from == 1 && chars@[from as int] == '.' {
            assert(name =~= seq!['.']);
        }
        if name == seq!['.'] {
            assert(name.len() == 1 && name[0] == '.');
        }
    }
    from == to || (to - from == 1 && chars[from] == '.') || (to - from == 2 && chars[from] == '.' && chars[from + 1] == '.')
}

/// The extension of the file that `path` leads to.
pub fn extension(path: &str) -> (found: Option<String>)
    ensures
        crate::text::opt_view(found) == path_extension(path@),
{
    let all = chars_of(path);
    let verbatim = verbatim_path(&all);
    let text = text_between(&all, prefix_end(&all), all.len());
    let chars = chars_of(text.as_str());
    proof {
        assert(chars@ =~= without_prefix(path@));
    }
    let (from, to) = name_span(verbatim, &chars);
    match extension_start(&chars, from, to) {
        Some(after) => Some(text_between(&chars, after, to)),
        None => None,
    }
}

/// The path with the extension of its file replaced, or one given where there
/// was none. A path that leads to no file is kept.
pub fn with_extension(path: &str, extension: &str) -> (changed: String)
    ensures
        changed@ == extended(path@, extension@),
{
    let all = chars_of(path);
    let verbatim = verbatim_path(&all);
    let prefix = prefix_end(&all);
    let text = text_between(&all, prefix, all.len());
    let chars = chars_of(text.as_str());
    let ghost body = without_prefix(path@);
    proof {
        assert(chars@ =~= body);
    }
    let (from, to) = name_span(verbatim, &chars);
    if nameless_span(&chars, from, to) {
        return path.to_owned();
    }
    let stop: usize = match extension_start(&chars, from, to) {
        Some(after) => after - 1,
        None => to,
    };
    let mut changed = text_between(&all, 0, prefix);
    changed.append(text_between(&chars, 0, stop).as_str());
    changed.push('.');
    changed.append(extension);
    proof {
        assert(all@.subrange(0, prefix as int) =~= path@.take(prefix as int));
        assert(chars@.subrange(0, stop as int) =~= stem(verbatim, body));
        assert(changed@ =~= extended(path@, extension@));
    }
    changed
}

} // verus!
