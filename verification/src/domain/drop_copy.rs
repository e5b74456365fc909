//! Names of collected drops: `{session}-{seq}-{hash8}.{ext}`.
//!
//! The extension comes from a file name that the analyzed malware chose, so it
//! is hostile input: only ASCII letters, digits, `-` and `_` survive, at most
//! sixteen characters are looked at, and the result is never empty. A colon can
//! not mint an alternate data stream in the drops directory, and no separator
//! leads out of it.

use vstd::prelude::*;

use crate::text::{
    chars_of, decimal, decimal_digits, digit, hex_digit, hex_digits, lower_ascii, push_hex,
    to_ascii_lower,
};

verus! {

/// Maximum kept extension length in the generated copy name.
pub const MAX_EXTENSION_LEN: usize = 16;

/// Fallback extension when nothing survives sanitization.
pub const FALLBACK_EXTENSION: &'static str = "bin";

/// The characters that an extension may keep.
pub open spec fn is_kept(c: char) -> bool {
    'a' <= c <= 'z' || 'A' <= c <= 'Z' || '0' <= c <= '9' || c == '-' || c == '_'
}

/// The characters of a text that are kept, in order.
pub open spec fn kept_of(text: Seq<char>) -> Seq<char> {
    text.filter(|c: char| is_kept(c))
}

/// The sanitized extension, before the fallback.
pub open spec fn cleaned(extension: Seq<char>) -> Seq<char> {
    let looked_at = if extension.len() < MAX_EXTENSION_LEN {
        extension
    } else {
        extension.take(MAX_EXTENSION_LEN as int)
    };
    lower_ascii(kept_of(looked_at))
}

/// The sanitized extension.
pub open spec fn sanitized(extension: Seq<char>) -> Seq<char> {
    if cleaned(extension).len() == 0 {
        FALLBACK_EXTENSION@
    } else {
        cleaned(extension)
    }
}

/// The copy's name.
pub open spec fn copy_name(
    session: nat,
    seq: nat,
    hash8: Seq<char>,
    extension: Seq<char>,
) -> Seq<char> {
    decimal_digits(session) + seq!['-'] + decimal_digits(seq) + seq!['-'] + hash8 + seq!['.']
        + extension
}

/// Sanitize a source extension for the generated copy name.
pub fn sanitize_extension(extension: &str) -> (kept: String)
    ensures
        kept@ == sanitized(extension@),
{
    let chars = chars_of(extension);
    let keep: usize = if chars.len() < MAX_EXTENSION_LEN {
        chars.len()
    } else {
        MAX_EXTENSION_LEN
    };
    let ghost pred = |c: char| is_kept(c);
    let mut kept = String::new();
    let mut at: usize = 0;
    proof {
        reveal(Seq::filter);
        assert(chars@.take(0).filter(pred) =~= Seq::<char>::empty());
        assert(kept@ =~= lower_ascii(chars@.take(0).filter(pred)));
    }
    while at < keep
        invariant
            at <= keep <= chars@.len(),
            pred == (|c: char| is_kept(c)),
            kept@ == lower_ascii(chars@.take(at as int).filter(pred)),
        decreases keep - at,
    {
        let c: char = chars[at];
        let ghost prior = kept@;
        if ('a' <= c && c <= 'z') || ('A' <= c && c <= 'Z') || ('0' <= c && c <= '9') || c == '-' || c
            == '_' {
            kept.push(to_ascii_lower(c));
        }
        at = at + 1;
        proof {
            reveal(Seq::filter);
            let head = chars@.take(at as int);
            assert(head.drop_last() =~= chars@.take(at - 1));
            assert(head.last() == c);
            if is_kept(c) {
                assert(head.filter(pred) =~= chars@.take(at - 1).filter(pred).push(c));
                assert(kept@ =~= lower_ascii(head.filter(pred)));
            } else {
                assert(head.filter(pred) =~= chars@.take(at - 1).filter(pred));
            }
        }
    }
    proof {
        if extension@.len() < MAX_EXTENSION_LEN {
            assert(chars@.take(keep as int) =~= extension@);
        }
        assert(kept@ == cleaned(extension@));
    }
    if kept.as_str().is_empty() {
        FALLBACK_EXTENSION.to_owned()
    } else {
        kept
    }
}

/// The generated copy file name: `{session}-{seq}-{hash8}.{ext}`.
pub fn copy_file_name(session: u32, seq: u64, hash8: &str, sanitized_extension: &str) -> (name: String)
    ensures
        name@ == copy_name(session as nat, seq as nat, hash8@, sanitized_extension@),
{
    let mut name = decimal(session as u64);
    name.push('-');
    name.append(decimal(seq).as_str());
    name.push('-');
    name.append(hash8);
    name.push('.');
    name.append(sanitized_extension);
    proof {
        assert(name@ =~= copy_name(session as nat, seq as nat, hash8@, sanitized_extension@));
    }
    name
}

/// First 8 hex characters of a SHA-256 digest (lowercase).
pub fn hash8(digest: &[u8; 32]) -> (text: String)
    ensures
        text@ == hex_digits(digest@.take(4)),
{
    let mut text = String::new();
    let mut at: usize = 0;
    proof {
        assert(text@ =~= hex_digits(digest@.take(0)));
    }
    while at < 4
        invariant
            at <= 4,
            text@ == hex_digits(digest@.take(at as int)),
        decreases 4 - at,
    {
        let ghost prior = text@;
        push_hex(&mut text, digest[at]);
        at = at + 1;
        proof {
            assert(digest@.take(at as int).drop_last() =~= digest@.take(at - 1));
        }
    }
    text
}

/// The characters that a sanitized extension is made of.
pub open spec fn is_tame(c: char) -> bool {
    'a' <= c <= 'z' || '0' <= c <= '9' || c == '-' || c == '_'
}

proof fn lemma_filter_keeps(text: Seq<char>)
    ensures
        kept_of(text).len() <= text.len(),
        forall|i: int|
            0 <= i < kept_of(text).len() ==> is_kept(
                #[trigger] kept_of(text)[i],
            ),
    decreases text.len(),
{
    reveal(Seq::filter);
    if text.len() > 0 {
        lemma_filter_keeps(text.drop_last());
    }
}

/// A sanitized extension is never empty, is at most sixteen characters long and
/// holds only lowercase ASCII letters, digits, `-` and `_`.
pub proof fn law_sanitized_extension_is_tame(extension: Seq<char>)
    ensures
        0 < sanitized(extension).len() <= MAX_EXTENSION_LEN,
        forall|i: int|
            0 <= i < sanitized(extension).len() ==> is_tame(#[trigger] sanitized(extension)[i]),
{
    reveal_strlit("bin");
    let looked_at = if extension.len() < MAX_EXTENSION_LEN {
        extension
    } else {
        extension.take(MAX_EXTENSION_LEN as int)
    };
    lemma_filter_keeps(looked_at);
    let kept = kept_of(looked_at);
    assert forall|i: int| 0 <= i < cleaned(extension).len() implies is_tame(
        #[trigger] cleaned(extension)[i],
    ) by {
        assert(is_kept(kept[i]));
    }
}

/// Sanitizing a sanitized extension changes nothing.
pub proof fn law_sanitizing_is_idempotent(extension: Seq<char>)
    ensures
        sanitized(sanitized(extension)) == sanitized(extension),
{
    law_sanitized_extension_is_tame(extension);
    let once = sanitized(extension);
    lemma_tame_survives(once);
    if once.len() == MAX_EXTENSION_LEN {
        assert(once.take(MAX_EXTENSION_LEN as int) =~= once);
    }
}

proof fn lemma_tame_survives(text: Seq<char>)
    requires
        forall|i: int| 0 <= i < text.len() ==> is_tame(#[trigger] text[i]),
    ensures
        lower_ascii(kept_of(text)) == text,
    decreases text.len(),
{
    reveal(Seq::filter);
    if text.len() > 0 {
        assert forall|i: int| 0 <= i < text.drop_last().len() implies is_tame(
            #[trigger] text.drop_last()[i],
        ) by {
            assert(text.drop_last()[i] == text[i]);
        }
        lemma_tame_survives(text.drop_last());
        assert(is_tame(text.last()));
        assert(kept_of(text) =~= kept_of(text.drop_last()).push(text.last()));
        assert(lower_ascii(kept_of(text)) =~= lower_ascii(kept_of(text.drop_last())).push(text.last()));
        assert(lower_ascii(kept_of(text)) =~= text);
    } else {
        assert(lower_ascii(kept_of(text)) =~= text);
    }
}

/// The decimal digits of a number are digits, and they determine the number.
pub proof fn lemma_decimal_digits(number: nat)
    ensures
        decimal_digits(number).len() > 0,
        forall|i: int|
            0 <= i < decimal_digits(number).len() ==> '0' <= #[trigger] decimal_digits(number)[i] <= '9',
    decreases number,
{
    if number >= 10 {
        lemma_decimal_digits(number / 10);
        assert('0' <= digit(number % 10) <= '9');
    } else {
        assert('0' <= digit(number) <= '9');
    }
}

/// Different numbers have different digits.
pub proof fn lemma_decimal_injective(left: nat, right: nat)
    requires
        decimal_digits(left) == decimal_digits(right),
    ensures
        left == right,
    decreases left,
{
    let a = decimal_digits(left);
    let b = decimal_digits(right);
    assert(a.last() == b.last());
    assert(digit(left % 10) == a.last());
    assert(digit(right % 10) == b.last());
    assert(left % 10 == right % 10);
    if left >= 10 || right >= 10 {
        lemma_decimal_digits(left / 10);
        lemma_decimal_digits(right / 10);
        if left >= 10 {
            assert(a.len() >= 2);
        }
        if right >= 10 {
            assert(b.len() >= 2);
        }
        assert(decimal_digits(left / 10) =~= a.drop_last());
        assert(decimal_digits(right / 10) =~= b.drop_last());
        lemma_decimal_injective(left / 10, right / 10);
    }
}

/// Two texts that go on after their first dash agree up to that dash.
proof fn lemma_first_dash(a: Seq<char>, rest_a: Seq<char>, b: Seq<char>, rest_b: Seq<char>)
    requires
        a + seq!['-'] + rest_a == b + seq!['-'] + rest_b,
        forall|i: int| 0 <= i < a.len() ==> #[trigger] a[i] != '-',
        forall|i: int| 0 <= i < b.len() ==> #[trigger] b[i] != '-',
    ensures
        a == b,
        rest_a == rest_b,
{
    let whole = a + seq!['-'] + rest_a;
    let other = b + seq!['-'] + rest_b;
    assert(whole[a.len() as int] == '-');
    assert(other[b.len() as int] == '-');
    if a.len() < b.len() {
        assert(other[a.len() as int] == b[a.len() as int]);
    } else if b.len() < a.len() {
        assert(whole[b.len() as int] == a[b.len() as int]);
    }
    assert(whole.take(a.len() as int) =~= a);
    assert(other.take(b.len() as int) =~= b);
    assert(whole.skip(a.len() as int + 1) =~= rest_a);
    assert(other.skip(b.len() as int + 1) =~= rest_b);
}

/// A copy's name tells the session and the sequence number it was made for: no
/// two collections of one boot write to the same name, whatever the malware
/// called its files.
pub proof fn law_copy_names_identify_the_copy(
    session_a: nat,
    seq_a: nat,
    hash_a: Seq<char>,
    ext_a: Seq<char>,
    session_b: nat,
    seq_b: nat,
    hash_b: Seq<char>,
    ext_b: Seq<char>,
)
    requires
        copy_name(session_a, seq_a, hash_a, ext_a) == copy_name(session_b, seq_b, hash_b, ext_b),
    ensures
        session_a == session_b,
        seq_a == seq_b,
{
    lemma_decimal_digits(session_a);
    lemma_decimal_digits(session_b);
    lemma_decimal_digits(seq_a);
    lemma_decimal_digits(seq_b);
    let tail_a = hash_a + seq!['.'] + ext_a;
    let tail_b = hash_b + seq!['.'] + ext_b;
    let rest_a = decimal_digits(seq_a) + seq!['-'] + tail_a;
    let rest_b = decimal_digits(seq_b) + seq!['-'] + tail_b;
    assert(copy_name(session_a, seq_a, hash_a, ext_a) =~= decimal_digits(session_a) + seq!['-']
        + rest_a);
    assert(copy_name(session_b, seq_b, hash_b, ext_b) =~= decimal_digits(session_b) + seq!['-']
        + rest_b);
    lemma_first_dash(decimal_digits(session_a), rest_a, decimal_digits(session_b), rest_b);
    lemma_first_dash(decimal_digits(seq_a), tail_a, decimal_digits(seq_b), tail_b);
    lemma_decimal_injective(session_a, session_b);
    lemma_decimal_injective(seq_a, seq_b);
}

proof fn lemma_hex_digits(bytes: Seq<u8>)
    ensures
        hex_digits(bytes).len() == 2 * bytes.len(),
        forall|i: int| 0 <= i < hex_digits(bytes).len() ==> is_tame(#[trigger] hex_digits(bytes)[i]),
    decreases bytes.len(),
{
    if bytes.len() > 0 {
        lemma_hex_digits(bytes.drop_last());
        assert(is_tame(hex_digit((bytes.last() / 16) as nat)));
        assert(is_tame(hex_digit((bytes.last() % 16) as nat)));
    }
}

/// A copy's name is made of lowercase ASCII letters, digits, `-`, `_` and one
/// dot: no separator, no colon, no white space, whatever the source was called.
pub proof fn law_copy_name_is_tame(session: nat, seq: nat, digest: Seq<u8>, extension: Seq<char>)
    ensures
        forall|i: int|
            0 <= i < copy_name(session, seq, hex_digits(digest), sanitized(extension)).len() ==> {
                let c = #[trigger] copy_name(session, seq, hex_digits(digest), sanitized(extension))[i];
                is_tame(c) || c == '.'
            },
{
    lemma_decimal_digits(session);
    lemma_decimal_digits(seq);
    lemma_hex_digits(digest);
    law_sanitized_extension_is_tame(extension);
}

} // verus!
