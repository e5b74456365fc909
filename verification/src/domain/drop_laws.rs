//! Which files are drops and how their copies are named, read off the configured
//! tokens and the characters of a name.

use vstd::prelude::*;

use crate::domain::drop_copy::{
    cleaned, copy_name, is_kept, kept_of, lemma_decimal_digits, sanitized, FALLBACK_EXTENSION,
    MAX_EXTENSION_LEN,
};
use crate::domain::drop_filter::{
    normal_extension, normal_token, passes, rule_passes, token_rule, token_rules, RuleModel,
};
use crate::domain::image_name::{divides, is_verbatim, path_extension, prefix_len};
use crate::domain::path_laws::{law_extension_follows_the_dot, law_no_dot_no_extension};
use crate::text::{
    ascii_lower, decimal_digits, is_space, joined, lower_ascii, lowercase, split_on, trim_start, trimmed,
};
use crate::text_laws::{
    law_splitting_undoes_joining, law_trimming_takes_the_spaces_around, lemma_trim_start,
};

verus! {

/// Does one configured token let a file of this extension pass: `*` any, `none`
/// those without one, another token those whose extension it is, with any number
/// of dots before it?
pub open spec fn token_passes(token: Seq<char>, extension: Option<Seq<char>>) -> bool {
    if token.len() == 0 {
        false
    } else if token.len() == 1 && token[0] == '*' {
        true
    } else if token.len() == 4 && token[0] == 'n' && token[1] == 'o' && token[2] == 'n' && token[3] == 'e' {
        extension is None || extension->0.len() == 0
    } else {
        extension matches Some(text) && (text.len() == 0 || text[0] != '.') && text.len() <= token.len()
            && token.skip(token.len() - text.len()) == text && forall|j: int|
            0 <= j < token.len() - text.len() ==> #[trigger] token[j] == '.'
    }
}

/// A token's rule lets pass what the token says.
pub proof fn lemma_token_rule(token: Seq<char>, extension: Option<Seq<char>>)
    ensures
        match token_rule(token) {
            Some(rule) => rule_passes(rule, extension) == token_passes(token, extension),
            None => !token_passes(token, extension),
        },
{
    if token.len() == 1 && token[0] == '*' {
        assert(token =~= seq!['*']);
    }
    if token.len() == 4 && token[0] == 'n' && token[1] == 'o' && token[2] == 'n' && token[3] == 'e' {
        assert(token =~= seq!['n', 'o', 'n', 'e']);
    }
    if token.len() > 0 && token != seq!['*'] && token != seq!['n', 'o', 'n', 'e'] {
        let skip = |c: char| c == '.';
        let bare = trim_start(token, skip);
        lemma_trim_start(token, skip);
        let gone = token.len() - bare.len();
        assert forall|j: int| 0 <= j < gone implies #[trigger] token[j] == '.' by {
            assert(skip(token[j]));
        }
        if bare.len() > 0 {
            assert(!skip(bare[0]));
        }
        if token_passes(token, extension) {
            let text = extension->0;
            let cut = token.len() - text.len();
            if cut < gone {
                assert(token[cut] == '.');
                assert(text[0] == token[cut]);
            }
            if cut > gone {
                assert(token[gone] == '.');
                assert(bare[0] == token[gone]);
            }
            assert(text == bare);
        }
    }
}

/// A filter passes a file exactly when one of its tokens does: none is lost, none
/// is added, and none undoes another.
pub proof fn law_some_token_decides(tokens: Seq<Seq<char>>, extension: Option<Seq<char>>)
    ensures
        passes(token_rules(tokens), extension) <==> exists|i: int|
            0 <= i < tokens.len() && token_passes(#[trigger] tokens[i], extension),
    decreases tokens.len(),
{
    let rules = token_rules(tokens);
    if tokens.len() > 0 {
        let front = tokens.drop_last();
        let earlier = token_rules(front);
        law_some_token_decides(front, extension);
        lemma_token_rule(tokens.last(), extension);
        assert(tokens.last() == tokens[tokens.len() - 1]);
        if passes(rules, extension) {
            let k = choose|k: int| 0 <= k < rules.len() && rule_passes(#[trigger] rules[k], extension);
            if k < earlier.len() {
                assert(earlier[k] == rules[k]);
                assert(passes(earlier, extension));
                let i = choose|i: int|
                    0 <= i < front.len() && token_passes(#[trigger] front[i], extension);
                assert(token_passes(tokens[i], extension));
            } else {
                assert(token_passes(tokens[tokens.len() - 1], extension));
            }
        }
        if exists|i: int| 0 <= i < tokens.len() && token_passes(#[trigger] tokens[i], extension) {
            let i = choose|i: int|
                0 <= i < tokens.len() && token_passes(#[trigger] tokens[i], extension);
            if i < front.len() {
                assert(token_passes(front[i], extension));
                assert(passes(earlier, extension));
                let k = choose|k: int|
                    0 <= k < earlier.len() && rule_passes(#[trigger] earlier[k], extension);
                assert(rules[k] == earlier[k]);
            } else {
                assert(rule_passes(rules[rules.len() - 1], extension));
            }
        }
    }
}

/// Spaces around a configured token do not matter.
pub proof fn law_spaces_around_a_token_do_not_matter(
    lead: Seq<char>,
    token: Seq<char>,
    trail: Seq<char>,
)
    requires
        token.len() > 0,
        !is_space(token[0]),
        !is_space(token.last()),
        forall|i: int| 0 <= i < lead.len() ==> is_space(#[trigger] lead[i]),
        forall|i: int| 0 <= i < trail.len() ==> is_space(#[trigger] trail[i]),
    ensures
        normal_token(lead + token + trail) == lowercase(token),
{
    let raw = lead + token + trail;
    law_trimming_takes_the_spaces_around(raw);
    let rest = trimmed(raw);
    let from = choose|from: int|
        {
            &&& 0 <= from <= raw.len() - rest.len()
            &&& #[trigger] raw.subrange(from, from + rest.len()) == rest
            &&& forall|i: int|
                0 <= i < from || from + rest.len() <= i < raw.len() ==> is_space(#[trigger] raw[i])
        };
    let (start, end) = (lead.len() as int, lead.len() + token.len());
    assert(raw[start] == token[0]);
    assert(raw[end - 1] == token.last());
    assert(from <= start < from + rest.len());
    assert(from <= end - 1 < from + rest.len());
    if from < start {
        assert(raw[from] == lead[from]);
        assert(rest[0] == raw.subrange(from, from + rest.len())[0]);
    }
    if from + rest.len() > end {
        assert(raw[from + rest.len() - 1] == trail[from + rest.len() - 1 - end]);
        assert(rest.last() == raw.subrange(from, from + rest.len())[rest.len() - 1]);
    }
    assert(rest =~= token);
}

/// A file passes by its extension in lower case, whatever the rest of its path,
/// and one without an extension as such.
pub proof fn law_a_file_passes_by_its_extension(
    rules: Seq<RuleModel>,
    before: Seq<char>,
    extension: Seq<char>,
    bare: Seq<char>,
)
    requires
        extension.len() > 0,
        forall|i: int|
            0 <= i < extension.len() ==> #[trigger] extension[i] != '.' && extension[i] != '/'
                && extension[i] != '\\',
        prefix_len(before.push('.') + extension) < before.len(),
        !divides(is_verbatim(before.push('.') + extension), before.last()),
        !bare.contains('.'),
    ensures
        passes(rules, normal_extension(path_extension(before.push('.') + extension))) == passes(
            rules,
            Some(lowercase(extension)),
        ),
        passes(rules, normal_extension(path_extension(bare))) == passes(rules, None),
{
    law_extension_follows_the_dot(before, extension);
    law_no_dot_no_extension(bare);
}

/// An extension is cleaned character by character: a letter, a digit, `-` or `_`
/// stays, in lower case; any other character goes; what lies beyond the longest
/// extension is not looked at; and where nothing stays the fallback stands in.
pub proof fn law_sanitizing_goes_by_character(extension: Seq<char>, c: char)
    ensures
        sanitized(Seq::empty()) == FALLBACK_EXTENSION@,
        ({
            let stays = 'a' <= c <= 'z' || 'A' <= c <= 'Z' || '0' <= c <= '9' || c == '-' || c == '_';
            let before = cleaned(extension);
            let after = cleaned(extension.push(c));
            &&& extension.len() >= MAX_EXTENSION_LEN ==> after == before
            &&& extension.len() < MAX_EXTENSION_LEN && !stays ==> after == before
            &&& extension.len() < MAX_EXTENSION_LEN && stays ==> after == before.push(ascii_lower(c))
            &&& sanitized(extension.push(c)) == if after.len() > 0 {
                after
            } else {
                FALLBACK_EXTENSION@
            }
            &&& stays && extension.len() == 0 ==> sanitized(extension.push(c)) == seq![ascii_lower(c)]
        }),
{
    reveal(Seq::filter);
    let longer = extension.push(c);
    let limit = MAX_EXTENSION_LEN as int;
    assert(cleaned(Seq::<char>::empty()) =~= Seq::<char>::empty());
    if extension.len() >= MAX_EXTENSION_LEN {
        assert(longer.take(limit) =~= extension.take(limit));
    } else {
        if longer.len() == limit {
            assert(longer.take(limit) =~= longer);
        }
        assert(longer.drop_last() =~= extension);
        assert(longer.last() == c);
        let kept = kept_of(extension);
        if is_kept(c) {
            assert(kept_of(longer) =~= kept.push(c));
            assert(lower_ascii(kept.push(c)) =~= lower_ascii(kept).push(ascii_lower(c)));
        } else {
            assert(kept_of(longer) =~= kept);
        }
    }
    if extension.len() == 0 {
        assert(extension =~= Seq::<char>::empty());
        assert(cleaned(extension) =~= Seq::<char>::empty());
        if is_kept(c) {
            assert(cleaned(longer) =~= seq![ascii_lower(c)]);
        }
    }
}

/// A copy's name reads back: cut at its dashes it gives the session, the number
/// and the content's hash with the extension.
pub proof fn law_a_copy_name_reads_back(
    session: nat,
    number: nat,
    hash: Seq<char>,
    extension: Seq<char>,
)
    requires
        !hash.contains('-'),
        !extension.contains('-'),
    ensures
        split_on(copy_name(session, number, hash, extension), '-') == seq![
            decimal_digits(session),
            decimal_digits(number),
            hash + seq!['.'] + extension,
        ],
{
    let last = hash + seq!['.'] + extension;
    let parts = seq![decimal_digits(session), decimal_digits(number), last];
    lemma_decimal_digits(session);
    lemma_decimal_digits(number);
    assert(!decimal_digits(session).contains('-'));
    assert(!decimal_digits(number).contains('-'));
    assert(!last.contains('-')) by {
        if last.contains('-') {
            let i = choose|i: int| 0 <= i < last.len() && last[i] == '-';
            if i < hash.len() {
                assert(hash[i] == '-');
            } else if i > hash.len() {
                assert(extension[i - hash.len() - 1] == '-');
            }
        }
    }
    law_splitting_undoes_joining(parts, '-');
    assert(parts.drop_last() =~= seq![decimal_digits(session), decimal_digits(number)]);
    assert(parts.drop_last().drop_last() =~= seq![decimal_digits(session)]);
    reveal_with_fuel(joined, 4);
    assert(joined(parts, seq!['-']) =~= copy_name(session, number, hash, extension));
}

} // verus!
