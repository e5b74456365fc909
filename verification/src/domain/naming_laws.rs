//! What markers, commands, paths and ids keep and tell apart.

use vstd::arithmetic::power::{lemma_pow0, pow};
use vstd::prelude::*;

use crate::domain::image_name::{
    divides, ends_idly, extended, file_name, is_nameless, is_verbatim, name_end, prefix_len, segment_in,
    stem, without_prefix,
};
use crate::domain::marker::{bare_name, dot_exe, same_marker};
use crate::domain::path_laws::{law_extension_follows_the_dot, lemma_segment_grows};
use crate::domain::shell_command::{
    has_placeholder, law_no_placeholder_no_change, placeholder_at, replaced, substituted,
};
use crate::domain::study_id::hex_number;
use crate::text::{hex_digit, lower_ascii};
use crate::text_laws::lemma_hex_digit;

verus! {

/// Markers that match the same marker match each other, and case never matters.
pub proof fn law_marker_match_is_transitive(first: Seq<char>, second: Seq<char>, third: Seq<char>)
    ensures
        same_marker(first, second) && same_marker(second, third) ==> same_marker(first, third),
        lower_ascii(second) == lower_ascii(third) ==> same_marker(first, second) == same_marker(
            first,
            third,
        ),
{
    if lower_ascii(second) == lower_ascii(third) {
        lemma_bare_ignores_case(second, third);
        assert(lower_ascii(second).len() == second.len());
        assert(lower_ascii(third).len() == third.len());
    }
}

/// Names that differ in case alone are bared alike.
pub proof fn lemma_bare_ignores_case(left: Seq<char>, right: Seq<char>)
    requires
        lower_ascii(left) == lower_ascii(right),
    ensures
        lower_ascii(bare_name(left)) == lower_ascii(bare_name(right)),
        (bare_name(left) == left) == (bare_name(right) == right),
{
    assert(lower_ascii(left).len() == left.len());
    assert(lower_ascii(right).len() == right.len());
    if left.len() >= 4 {
        let cut = left.len() - 4;
        let (left_tail, right_tail) = (left.skip(cut), right.skip(cut));
        assert(lower_ascii(left_tail) =~= lower_ascii(left).skip(cut));
        assert(lower_ascii(right_tail) =~= lower_ascii(right).skip(cut));
        assert(lower_ascii(left.take(cut)) =~= lower_ascii(left).take(cut));
        assert(lower_ascii(right.take(cut)) =~= lower_ascii(right).take(cut));
        if bare_name(left) != left {
            assert(bare_name(left).len() == left.len() - 4);
        }
        if bare_name(right) != right {
            assert(bare_name(right).len() == right.len() - 4);
        }
        if lower_ascii(left_tail) == dot_exe() {
            assert(bare_name(left).len() != left.len());
            assert(bare_name(right).len() != right.len());
        }
    }
}

/// Names without an extension match exactly when they are equal but for case,
/// and neither is empty; and each matches the other with `.exe` in any case.
pub proof fn law_markers_match_by_name(left: Seq<char>, right: Seq<char>, extension: Seq<char>)
    requires
        bare_name(left) == left,
        bare_name(right) == right,
        lower_ascii(extension) == dot_exe(),
    ensures
        same_marker(left, right) <==> left.len() > 0 && right.len() > 0 && lower_ascii(left)
            == lower_ascii(right),
        left.len() > 0 && right.len() > 0 ==> same_marker(left, right + extension) == same_marker(
            left,
            right,
        ),
{
    let longer = right + extension;
    assert(lower_ascii(extension).len() == extension.len());
    assert(longer.skip(longer.len() - 4) =~= extension);
    assert(longer.take(longer.len() - 4) =~= right);
}

/// Every placeholder is replaced by the document, and nothing else is touched:
/// what stands before the first one stays, the document follows, and so on
/// behind it.
pub proof fn law_placeholders_give_way_to_the_document(
    before: Seq<char>,
    mark: char,
    behind: Seq<char>,
    document: Seq<char>,
)
    requires
        !before.contains('%'),
        mark == '1' || mark == 'l' || mark == 'L',
    ensures
        substituted(before.push('%').push(mark) + behind, document) == before + document + replaced(
            behind,
            document,
        ),
        !has_placeholder(behind) ==> substituted(before.push('%').push(mark) + behind, document)
            == before + document + behind,
    decreases before.len(),
{
    let command = before.push('%').push(mark) + behind;
    assert(placeholder_at(command, before.len() as int));
    lemma_first_placeholder(before, mark, behind, document);
    if !has_placeholder(behind) {
        law_no_placeholder_no_change(behind, document);
    }
}

/// What stands before the first placeholder stays.
proof fn lemma_first_placeholder(
    before: Seq<char>,
    mark: char,
    behind: Seq<char>,
    document: Seq<char>,
)
    requires
        !before.contains('%'),
        mark == '1' || mark == 'l' || mark == 'L',
    ensures
        replaced(before.push('%').push(mark) + behind, document) == before + document + replaced(
            behind,
            document,
        ),
    decreases before.len(),
{
    let command = before.push('%').push(mark) + behind;
    let rest = replaced(behind, document);
    if before.len() == 0 {
        assert(placeholder_at(command, 0));
        assert(command.skip(2) =~= behind);
        assert(before + document + rest =~= document + rest);
    } else {
        let inner = before.skip(1);
        assert(before.contains(before[0]));
        assert(!placeholder_at(command, 0));
        assert(!inner.contains('%')) by {
            if inner.contains('%') {
                let i = choose|i: int| 0 <= i < inner.len() && inner[i] == '%';
                assert(before[i + 1] == '%');
            }
        }
        lemma_first_placeholder(inner, mark, behind, document);
        assert(command.skip(1) =~= inner.push('%').push(mark) + behind);
        assert(seq![before[0]] + (inner + document + rest) =~= before + document + rest);
    }
}

/// A command without a placeholder gets the document behind it, in quotes.
pub proof fn law_a_plain_command_gets_the_document(command: Seq<char>, document: Seq<char>)
    requires
        !command.contains('%'),
    ensures
        substituted(command, document).len() == command.len() + document.len() + 3,
        substituted(command, document).take(command.len() as int) == command,
        substituted(command, document).skip(command.len() as int) == seq![' ', '"'] + document + seq![
            '"',
        ],
{
    assert(!has_placeholder(command)) by {
        if has_placeholder(command) {
            let at = choose|at: int| #[trigger] placeholder_at(command, at);
            assert(command[at] == '%');
        }
    }
    let whole = substituted(command, document);
    assert(whole.take(command.len() as int) =~= command);
    assert(whole.skip(command.len() as int) =~= seq![' ', '"'] + document + seq!['"']);
}

/// A new extension takes the place of the old one and touches nothing else.
pub proof fn law_a_new_extension_replaces_the_old(
    before: Seq<char>,
    old_extension: Seq<char>,
    extension: Seq<char>,
)
    requires
        old_extension.len() > 0,
        forall|i: int|
            0 <= i < old_extension.len() ==> #[trigger] old_extension[i] != '.' && old_extension[i] != '/'
                && old_extension[i] != '\\',
        prefix_len(before.push('.') + old_extension) < before.len(),
        !divides(is_verbatim(before.push('.') + old_extension), before.last()),
    ensures
        extended(before.push('.') + old_extension, extension) == before.push('.') + extension,
{
    let path = before.push('.') + old_extension;
    let verbatim = is_verbatim(path);
    let body = without_prefix(path);
    let cut = prefix_len(path) as int;
    let inner = before.skip(cut);
    let tail = seq!['.'] + old_extension;
    law_extension_follows_the_dot(before, old_extension);
    assert(body =~= inner + tail);
    assert forall|i: int| 0 <= i < tail.len() implies !divides(verbatim, #[trigger] tail[i]) by {
        if i > 0 {
            assert(tail[i] == old_extension[i - 1]);
        }
    }
    lemma_segment_grows(verbatim, inner, tail);
    assert(inner.last() == before.last());
    let name = segment_in(verbatim, body);
    assert(name.len() >= 3);
    assert(body.last() == old_extension[old_extension.len() - 1]);
    assert(!ends_idly(verbatim, body));
    assert(file_name(verbatim, body) == name);
    assert(name_end(verbatim, body) == body.len());
    assert(!is_nameless(name)) by {
        if name == seq!['.', '.'] {
            assert(name.len() == 2);
        }
        if name == seq!['.'] {
            assert(name.len() == 1);
        }
    }
    assert(stem(verbatim, body) =~= inner);
    assert(extended(path, extension) =~= before.push('.') + extension);
}

/// Ids that differ are written differently.
pub proof fn law_ids_are_written_apart(left: nat, right: nat, digits: nat)
    requires
        left < pow(16, digits),
        right < pow(16, digits),
        hex_number(left, digits) == hex_number(right, digits),
    ensures
        left == right,
    decreases digits,
{
    if digits == 0 {
        lemma_pow0(16);
    } else {
        let fewer = (digits - 1) as nat;
        reveal(pow);
        assert(pow(16, digits) == 16 * pow(16, fewer));
        let (left_text, right_text) = (hex_number(left, digits), hex_number(right, digits));
        assert(left_text.drop_last() =~= hex_number(left / 16, fewer));
        assert(right_text.drop_last() =~= hex_number(right / 16, fewer));
        assert(left_text.last() == hex_digit(left % 16));
        assert(right_text.last() == hex_digit(right % 16));
        lemma_hex_digit(left % 16);
        lemma_hex_digit(right % 16);
        law_ids_are_written_apart(left / 16, right / 16, fewer);
    }
}

} // verus!
