//! Text primitives. Every string is specified by its sequence of characters;
//! the functions here are the few operations on characters that the rest of
//! the crate is built from.

use vstd::prelude::*;

verus! {

/// `String::push` of the standard library: the string grows by exactly the
/// given character, at its end.
pub assume_specification[ String::push ](text: &mut String, c: char)
    ensures
        final(text)@ == old(text)@.push(c),
;

/// `==` on `str` of the standard library: two string slices are equal exactly
/// when they hold the same characters in the same order.
pub assume_specification[ <str as PartialEq>::eq ](left: &str, right: &str) -> (same: bool)
    ensures
        same == (left@ == right@),
;

/// What `str::to_lowercase` of the standard library returns for a text.
pub uninterp spec fn lowercase(text: Seq<char>) -> Seq<char>;

/// Calls `str::to_lowercase`. The result depends on the text alone; of a text
/// that is all ASCII it is the text with `A`-`Z` mapped onto `a`-`z`. What the
/// Unicode tables say of other characters is left unsaid.
#[verifier::external_body]
pub(crate) fn to_lowercase(text: &str) -> (lowered: String)
    ensures
        lowered@ == lowercase(text@),
        is_ascii_text(text@) ==> lowered@ == lower_ascii(text@),
{
    text.to_lowercase()
}

/// Every character is ASCII.
pub open spec fn is_ascii_text(text: Seq<char>) -> bool {
    forall|i: int| 0 <= i < text.len() ==> (#[trigger] text[i] as u32) < 128
}

/// `A`-`Z` onto `a`-`z`; every other character is kept.
pub open spec fn ascii_lower(c: char) -> char {
    if 'A' <= c <= 'Z' {
        (c as u32 + 32) as char
    } else {
        c
    }
}

/// [`ascii_lower`] on every character.
pub open spec fn lower_ascii(text: Seq<char>) -> Seq<char> {
    text.map_values(|c: char| ascii_lower(c))
}

/// The Unicode `White_Space` property.
pub open spec fn is_space(c: char) -> bool {
    let code = c as u32;
    ||| 0x09 <= code <= 0x0D
    ||| code == 0x20
    ||| code == 0x85
    ||| code == 0xA0
    ||| code == 0x1680
    ||| 0x2000 <= code <= 0x200A
    ||| code == 0x2028
    ||| code == 0x2029
    ||| code == 0x202F
    ||| code == 0x205F
    ||| code == 0x3000
}

/// The text without its leading characters that satisfy `skip`.
pub open spec fn trim_start(text: Seq<char>, skip: spec_fn(char) -> bool) -> Seq<char>
    decreases text.len(),
{
    if text.len() > 0 && skip(text[0]) {
        trim_start(text.skip(1), skip)
    } else {
        text
    }
}

/// The text without its trailing characters that satisfy `skip`.
pub open spec fn trim_end(text: Seq<char>, skip: spec_fn(char) -> bool) -> Seq<char>
    decreases text.len(),
{
    if text.len() > 0 && skip(text.last()) {
        trim_end(text.drop_last(), skip)
    } else {
        text
    }
}

/// The text without leading and trailing white space.
pub open spec fn trimmed(text: Seq<char>) -> Seq<char> {
    trim_end(trim_start(text, |c: char| is_space(c)), |c: char| is_space(c))
}

/// The decimal digits of a number, without leading zeros.
pub open spec fn decimal_digits(number: nat) -> Seq<char>
    decreases number,
{
    if number < 10 {
        seq![digit(number)]
    } else {
        decimal_digits(number / 10).push(digit(number % 10))
    }
}

/// The decimal digits of a number, with a minus sign where it is negative.
pub open spec fn signed_digits(number: int) -> Seq<char> {
    if number < 0 {
        seq!['-'] + decimal_digits((-number) as nat)
    } else {
        decimal_digits(number as nat)
    }
}

/// The parts of a text between the separators. A text without a separator is one
/// part, itself.
pub open spec fn split_on(text: Seq<char>, separator: char) -> Seq<Seq<char>>
    decreases text.len(),
{
    if text.len() == 0 {
        seq![text]
    } else {
        let earlier = split_on(text.drop_last(), separator);
        if text.last() == separator {
            earlier.push(Seq::empty())
        } else {
            earlier.drop_last().push(earlier.last().push(text.last()))
        }
    }
}

/// The character of one decimal digit.
pub open spec fn digit(value: nat) -> char {
    (0x30 + value) as char
}

/// The character of one lowercase hexadecimal digit.
pub open spec fn hex_digit(value: nat) -> char {
    if value < 10 {
        (0x30 + value) as char
    } else {
        (0x57 + value) as char
    }
}

/// The two hexadecimal digits of each byte, in order.
pub open spec fn hex_digits(bytes: Seq<u8>) -> Seq<char>
    decreases bytes.len(),
{
    if bytes.len() == 0 {
        Seq::empty()
    } else {
        hex_digits(bytes.drop_last()).push(hex_digit((bytes.last() / 16) as nat)).push(
            hex_digit((bytes.last() % 16) as nat),
        )
    }
}

/// The texts one after another, with `separator` between neighbours.
pub open spec fn joined(parts: Seq<Seq<char>>, separator: Seq<char>) -> Seq<char>
    decreases parts.len(),
{
    if parts.len() == 0 {
        Seq::empty()
    } else if parts.len() == 1 {
        parts[0]
    } else {
        joined(parts.drop_last(), separator) + separator + parts.last()
    }
}

/// The characters of each string.
pub open spec fn views(strings: Seq<String>) -> Seq<Seq<char>> {
    strings.map_values(|s: String| s@)
}

/// The characters of an optional string.
pub open spec fn opt_view(text: Option<String>) -> Option<Seq<char>> {
    match text {
        Some(text) => Some(text@),
        None => None,
    }
}

/// The characters of a string slice.
pub fn chars_of(text: &str) -> (chars: Vec<char>)
    ensures
        chars@ == text@,
{
    let mut chars: Vec<char> = Vec::new();
    for c in it: text.chars()
        invariant
            chars@ == text@.take(it.index()),
            it.seq() == text@,
    {
        proof {
            assert(text@.take(it.index() + 1) == text@.take(it.index()).push(text@[it.index()]));
        }
        chars.push(c);
    }
    proof {
        assert(text@.take(text@.len() as int) == text@);
    }
    chars
}

/// A string of the characters in `from..to`.
pub fn text_between(chars: &Vec<char>, from: usize, to: usize) -> (text: String)
    requires
        from <= to <= chars@.len(),
    ensures
        text@ == chars@.subrange(from as int, to as int),
{
    let mut text = String::new();
    let mut at: usize = from;
    while at < to
        invariant
            from <= at <= to <= chars@.len(),
            text@ == chars@.subrange(from as int, at as int),
        decreases to - at,
    {
        text.push(chars[at]);
        at = at + 1;
        proof {
            assert(chars@.subrange(from as int, at as int) == chars@.subrange(
                from as int,
                at - 1,
            ).push(chars@[at - 1]));
        }
    }
    text
}

/// Is this a white space character?
pub fn is_whitespace(c: char) -> (space: bool)
    ensures
        space == is_space(c),
{
    let code: u32 = c as u32;
    (0x09 <= code && code <= 0x0D) || code == 0x20 || code == 0x85 || code == 0xA0 || code == 0x1680
        || (0x2000 <= code && code <= 0x200A) || code == 0x2028 || code == 0x2029 || code == 0x202F
        || code == 0x205F || code == 0x3000
}

/// `A`-`Z` onto `a`-`z`, any other character unchanged.
pub fn to_ascii_lower(c: char) -> (lowered: char)
    ensures
        lowered == ascii_lower(c),
{
    if 'A' <= c && c <= 'Z' {
        ((c as u8) + 32) as char
    } else {
        c
    }
}

/// The text with `A`-`Z` mapped onto `a`-`z`.
pub fn to_ascii_lowercase(text: &str) -> (lowered: String)
    ensures
        lowered@ == lower_ascii(text@),
{
    let chars = chars_of(text);
    let mut lowered = String::new();
    let mut at: usize = 0;
    while at < chars.len()
        invariant
            at <= chars@.len(),
            chars@ == text@,
            lowered@ == lower_ascii(text@.take(at as int)),
        decreases chars@.len() - at,
    {
        lowered.push(to_ascii_lower(chars[at]));
        at = at + 1;
        proof {
            assert(lower_ascii(text@.take(at as int)) == lower_ascii(text@.take(at - 1)).push(
                ascii_lower(text@[at - 1]),
            ));
        }
    }
    proof {
        assert(text@.take(text@.len() as int) == text@);
    }
    lowered
}

/// Are the two texts equal once `A`-`Z` and `a`-`z` are told apart no more?
pub fn eq_ignore_ascii_case(left: &str, right: &str) -> (same: bool)
    ensures
        same == (lower_ascii(left@) == lower_ascii(right@)),
{
    to_ascii_lowercase(left) == to_ascii_lowercase(right)
}

/// The text without leading and trailing white space.
pub fn trim(text: &str) -> (rest: &str)
    ensures
        rest@ == trimmed(text@),
{
    let chars = chars_of(text);
    let ghost space = |c: char| is_space(c);
    let mut from: usize = 0;
    proof {
        assert(text@.skip(0) == text@);
    }
    while from < chars.len() && is_whitespace(chars[from])
        invariant
            from <= chars@.len(),
            chars@ == text@,
            space == (|c: char| is_space(c)),
            trim_start(text@, space) == trim_start(text@.skip(from as int), space),
        decreases chars@.len() - from,
    {
        proof {
            assert(text@.skip(from as int).skip(1) == text@.skip(from + 1));
        }
        from = from + 1;
    }
    let mut to: usize = chars.len();
    proof {
        assert(text@.skip(from as int) == text@.subrange(from as int, to as int));
    }
    while to > from && is_whitespace(chars[to - 1])
        invariant
            from <= to <= chars@.len(),
            chars@ == text@,
            space == (|c: char| is_space(c)),
            trimmed(text@) == trim_end(text@.subrange(from as int, to as int), space),
        decreases to,
    {
        proof {
            assert(text@.subrange(from as int, to as int).drop_last() == text@.subrange(
                from as int,
                to - 1,
            ));
        }
        to = to - 1;
    }
    text.substring_char(from, to)
}

/// The decimal digits of `number`.
pub fn decimal(number: u64) -> (text: String)
    ensures
        text@ == decimal_digits(number as nat),
    decreases number,
{
    let last: u8 = (number % 10) as u8;
    let c: char = (0x30u8 + last) as char;
    if number < 10 {
        let mut text = String::new();
        text.push(c);
        proof {
            assert(text@ == seq![digit(number as nat)]);
        }
        text
    } else {
        let mut text = decimal(number / 10);
        text.push(c);
        text
    }
}

/// The decimal digits of `number`, with a minus sign where it is negative.
pub fn signed_decimal(number: i64) -> (text: String)
    ensures
        text@ == signed_digits(number as int),
{
    if number < 0 {
        let magnitude: u64 = (-(number as i128)) as u64;
        let mut text = "-".to_owned();
        proof {
            reveal_strlit("-");
            assert(text@ =~= seq!['-']);
        }
        text.append(decimal(magnitude).as_str());
        text
    } else {
        decimal(number as u64)
    }
}

/// The parts of `text` between the separators.
pub fn split(text: &str, separator: char) -> (parts: Vec<String>)
    ensures
        views(parts@) == split_on(text@, separator),
        parts@.len() > 0,
{
    let chars = chars_of(text);
    let mut parts: Vec<String> = Vec::new();
    let mut current = String::new();
    let mut at: usize = 0;
    proof {
        assert(views(parts@).push(current@) =~= split_on(text@.take(0), separator)) by {
            assert(text@.take(0) =~= Seq::<char>::empty());
        }
    }
    while at < chars.len()
        invariant
            at <= chars@.len(),
            chars@ == text@,
            views(parts@).push(current@) == split_on(text@.take(at as int), separator),
        decreases chars@.len() - at,
    {
        let ghost done = views(parts@);
        let ghost partial = current@;
        let c = chars[at];
        proof {
            assert(text@.take(at + 1).drop_last() =~= text@.take(at as int));
            assert(done.push(partial).drop_last() =~= done);
        }
        if c == separator {
            parts.push(current);
            current = String::new();
            proof {
                assert(views(parts@) =~= done.push(partial));
                assert(current@ =~= Seq::<char>::empty());
            }
        } else {
            current.push(c);
        }
        at = at + 1;
    }
    let ghost done = views(parts@);
    let ghost last = current@;
    parts.push(current);
    proof {
        assert(views(parts@) =~= done.push(last));
        assert(text@.take(at as int) =~= text@);
    }
    parts
}

/// The two hexadecimal digits of a byte, appended.
pub fn push_hex(text: &mut String, byte: u8)
    ensures
        final(text)@ == old(text)@.push(hex_digit((byte / 16) as nat)).push(
            hex_digit((byte % 16) as nat),
        ),
{
    text.push(hex_char(byte / 16));
    text.push(hex_char(byte % 16));
}

/// The character of one lowercase hexadecimal digit.
fn hex_char(value: u8) -> (c: char)
    requires
        value < 16,
    ensures
        c == hex_digit(value as nat),
{
    if value < 10 {
        (0x30u8 + value) as char
    } else {
        (0x57u8 + value) as char
    }
}

/// The texts one after another, with `separator` between neighbours.
pub fn join(parts: &Vec<String>, separator: &str) -> (text: String)
    ensures
        text@ == joined(views(parts@), separator@),
{
    let mut text = String::new();
    let mut at: usize = 0;
    while at < parts.len()
        invariant
            at <= parts@.len(),
            text@ == joined(views(parts@).take(at as int), separator@),
        decreases parts@.len() - at,
    {
        if at > 0 {
            text.append(separator);
        }
        text.append(parts[at].as_str());
        at = at + 1;
        proof {
            assert(views(parts@).take(at as int).drop_last() == views(parts@).take(at - 1));
            assert(text@ == joined(views(parts@).take(at as int), separator@));
        }
    }
    proof {
        assert(views(parts@).take(parts@.len() as int) == views(parts@));
    }
    text
}

} // verus!
