//! What holds of text across the operations on it.

use vstd::prelude::*;

use crate::app::cli::{digits_value, number_of};
use crate::text::{
    ascii_lower, decimal_digits, digit, hex_digit, hex_digits, is_space, joined, lower_ascii, split_on,
    trim_end, trim_start, trimmed,
};

verus! {

/// Lowering touches the 26 capital letters alone, keeps their order, and a
/// second time changes nothing.
pub proof fn law_lowering_is_for_capitals(c: char)
    ensures
        'A' <= c <= 'Z' ==> 'a' <= ascii_lower(c) <= 'z' && ascii_lower(c) as int - 'a' as int == c as int
            - 'A' as int,
        !('A' <= c <= 'Z') ==> ascii_lower(c) == c,
        ascii_lower(ascii_lower(c)) == ascii_lower(c),
{
}

/// Lowering works character by character: it keeps the length, goes over
/// concatenation, and a second time changes nothing.
pub proof fn law_lowering_goes_by_character(left: Seq<char>, right: Seq<char>)
    ensures
        lower_ascii(left).len() == left.len(),
        forall|i: int| 0 <= i < left.len() ==> #[trigger] lower_ascii(left)[i] == ascii_lower(left[i]),
        lower_ascii(left + right) == lower_ascii(left) + lower_ascii(right),
        lower_ascii(lower_ascii(left)) == lower_ascii(left),
{
    assert(lower_ascii(left + right) =~= lower_ascii(left) + lower_ascii(right));
    assert(lower_ascii(lower_ascii(left)) =~= lower_ascii(left));
}

/// A character that does not separate makes the last part longer.
pub proof fn lemma_split_grows(text: Seq<char>, tail: Seq<char>, separator: char)
    requires
        forall|i: int| 0 <= i < tail.len() ==> #[trigger] tail[i] != separator,
    ensures
        split_on(text, separator).len() > 0,
        split_on(text + tail, separator) == split_on(text, separator).drop_last().push(
            split_on(text, separator).last() + tail,
        ),
    decreases text.len() + tail.len(),
{
    let parts = split_on(text, separator);
    if text.len() > 0 {
        lemma_split_grows(text.drop_last(), Seq::empty(), separator);
    }
    if tail.len() == 0 {
        assert(text + tail =~= text);
        assert(parts.last() + tail =~= parts.last());
        assert(parts =~= parts.drop_last().push(parts.last() + tail));
    } else {
        let whole = text + tail;
        assert(whole.drop_last() =~= text + tail.drop_last());
        assert(whole.last() == tail[tail.len() - 1]);
        assert forall|i: int| 0 <= i < tail.drop_last().len() implies #[trigger] tail.drop_last()[i]
            != separator by {
            assert(tail.drop_last()[i] == tail[i]);
        }
        lemma_split_grows(text, tail.drop_last(), separator);
        let earlier = split_on(text + tail.drop_last(), separator);
        assert(earlier.last() == parts.last() + tail.drop_last());
        assert(earlier.drop_last() =~= parts.drop_last());
        assert((parts.last() + tail.drop_last()).push(tail.last()) =~= parts.last() + tail);
    }
}

/// Splitting undoes joining, for parts in which the separator does not occur.
pub proof fn law_splitting_undoes_joining(parts: Seq<Seq<char>>, separator: char)
    requires
        parts.len() > 0,
        forall|k: int| 0 <= k < parts.len() ==> !(#[trigger] parts[k]).contains(separator),
    ensures
        split_on(joined(parts, seq![separator]), separator) == parts,
    decreases parts.len(),
{
    let last = parts.last();
    assert(last == parts[parts.len() - 1]);
    assert forall|i: int| 0 <= i < last.len() implies #[trigger] last[i] != separator by {
        assert(last.contains(last[i]));
    }
    if parts.len() == 1 {
        lemma_split_grows(Seq::empty(), last, separator);
        assert(Seq::<char>::empty() + last =~= last);
        assert(split_on(last, separator) =~= parts);
    } else {
        let front = parts.drop_last();
        assert forall|k: int| 0 <= k < front.len() implies !(#[trigger] front[k]).contains(separator) by {
            assert(front[k] == parts[k]);
        }
        law_splitting_undoes_joining(front, separator);
        let head = joined(front, seq![separator]) + seq![separator];
        assert(head.drop_last() =~= joined(front, seq![separator]));
        assert(split_on(head, separator) == front.push(Seq::empty()));
        lemma_split_grows(head, last, separator);
        assert(Seq::<char>::empty() + last =~= last);
        assert(front.push(Seq::<char>::empty()).drop_last() =~= front);
        assert(split_on(head + last, separator) =~= parts);
    }
}

/// Joining undoes splitting, and no part holds the separator.
pub proof fn law_joining_undoes_splitting(text: Seq<char>, separator: char)
    ensures
        split_on(text, separator).len() > 0,
        joined(split_on(text, separator), seq![separator]) == text,
        forall|k: int|
            0 <= k < split_on(text, separator).len() ==> !(#[trigger] split_on(
                text,
                separator,
            )[k]).contains(separator),
    decreases text.len(),
{
    if text.len() > 0 {
        let earlier = split_on(text.drop_last(), separator);
        let parts = split_on(text, separator);
        law_joining_undoes_splitting(text.drop_last(), separator);
        if text.last() == separator {
            assert(parts.drop_last() =~= earlier);
            assert(joined(parts, seq![separator]) =~= text);
        } else {
            let grown = earlier.last().push(text.last());
            assert(parts.drop_last() =~= earlier.drop_last());
            assert(!earlier[earlier.len() - 1].contains(separator));
            assert(!grown.contains(separator)) by {
                if grown.contains(separator) {
                    let i = choose|i: int| 0 <= i < grown.len() && grown[i] == separator;
                    assert(earlier.last()[i] == separator);
                }
            }
            assert(parts.last() == grown);
            assert(text =~= text.drop_last().push(text.last()));
            if earlier.len() == 1 {
                assert(earlier[0] == earlier.last());
                assert(parts[0] == grown);
                assert(joined(earlier, seq![separator]) == earlier.last());
                assert(joined(parts, seq![separator]) == grown);
            } else {
                let head = joined(earlier.drop_last(), seq![separator]) + seq![separator];
                assert(joined(earlier, seq![separator]) == head + earlier.last());
                assert(joined(parts, seq![separator]) == head + grown);
                assert(head + grown =~= (head + earlier.last()).push(text.last()));
            }
        }
        assert forall|k: int| 0 <= k < parts.len() implies !(#[trigger] parts[k]).contains(separator) by {
            if k < parts.len() - 1 {
                assert(parts[k] == earlier[k]);
            }
        }
    }
}

/// The digits of a number stand for it: reading them back gives the number, each
/// is one of the ten, and none but 0 itself starts with 0.
pub proof fn law_digits_stand_for_the_number(number: nat)
    ensures
        digits_value(decimal_digits(number)) == number,
        decimal_digits(number).len() > 0,
        forall|i: int|
            0 <= i < decimal_digits(number).len() ==> '0' <= #[trigger] decimal_digits(number)[i] <= '9',
        number > 0 ==> decimal_digits(number)[0] != '0',
        number <= u64::MAX ==> number_of(decimal_digits(number)) == Some(number as u64),
    decreases number,
{
    let text = decimal_digits(number);
    reveal_with_fuel(digits_value, 2);
    if number < 10 {
        assert(text.drop_last() =~= Seq::empty());
    } else {
        law_digits_stand_for_the_number(number / 10);
        assert(text.drop_last() =~= decimal_digits(number / 10));
        assert(text.last() == digit(number % 10));
        assert forall|i: int| 0 <= i < text.len() implies '0' <= #[trigger] text[i] <= '9' by {
            if i < text.len() - 1 {
                assert(text[i] == decimal_digits(number / 10)[i]);
            }
        }
        assert(text[0] == decimal_digits(number / 10)[0]);
    }
}

/// A byte's two hex digits tell it from every other byte.
pub proof fn lemma_hex_digit(value: nat)
    requires
        value < 16,
    ensures
        value < 10 ==> hex_digit(value) as int == '0' as int + value,
        value >= 10 ==> hex_digit(value) as int == 'a' as int + (value - 10),
{
}

/// Hex takes two characters a byte, `0` to `9` and `a` to `f`, and differs
/// wherever the bytes do.
pub proof fn law_hex_tells_bytes_apart(left: Seq<u8>, right: Seq<u8>)
    ensures
        hex_digits(left).len() == 2 * left.len(),
        forall|i: int|
            0 <= i < hex_digits(left).len() ==> '0' <= #[trigger] hex_digits(left)[i] <= '9' || 'a'
                <= hex_digits(left)[i] <= 'f',
        hex_digits(left) == hex_digits(right) ==> left == right,
    decreases left.len(),
{
    if left.len() > 0 {
        let front = hex_digits(left.drop_last());
        let all = hex_digits(left);
        let high: nat = (left.last() / 16) as nat;
        let low: nat = (left.last() % 16) as nat;
        assert(high < 16 && low < 16);
        lemma_hex_digit(high);
        lemma_hex_digit(low);
        if right.len() > 0 {
            law_hex_tells_bytes_apart(left.drop_last(), right.drop_last());
            let other_high: nat = (right.last() / 16) as nat;
            let other_low: nat = (right.last() % 16) as nat;
            lemma_hex_digit(other_high);
            lemma_hex_digit(other_low);
            if all == hex_digits(right) {
                let others = hex_digits(right);
                assert(all.drop_last().drop_last() =~= front);
                assert(others.drop_last().drop_last() =~= hex_digits(right.drop_last()));
                assert(all.last() == hex_digit(low) && others.last() == hex_digit(other_low));
                assert(all.drop_last().last() == hex_digit(high));
                assert(others.drop_last().last() == hex_digit(other_high));
                assert(left.last() == right.last());
                assert(left =~= left.drop_last().push(left.last()));
                assert(right =~= right.drop_last().push(right.last()));
            }
        } else {
            law_hex_tells_bytes_apart(left.drop_last(), right);
            assert(all.len() > 0);
        }
        assert forall|i: int| 0 <= i < all.len() implies '0' <= #[trigger] all[i] <= '9' || 'a' <= all[i]
            <= 'f' by {
            if i < front.len() {
                assert(all[i] == front[i]);
            }
        }
    } else if right.len() > 0 {
        assert(hex_digits(right).len() > 0);
        assert(hex_digits(left).len() == 0);
    } else {
        assert(left =~= right);
    }
}

/// Trimming at the front takes nothing but what is to be skipped, and all of it.
pub proof fn lemma_trim_start(text: Seq<char>, skip: spec_fn(char) -> bool)
    ensures
        trim_start(text, skip).len() <= text.len(),
        trim_start(text, skip) == text.skip(text.len() - trim_start(text, skip).len()),
        forall|i: int|
            0 <= i < text.len() - trim_start(text, skip).len() ==> skip(#[trigger] text[i]),
        trim_start(text, skip).len() > 0 ==> !skip(trim_start(text, skip)[0]),
    decreases text.len(),
{
    if text.len() > 0 && skip(text[0]) {
        let rest = text.skip(1);
        lemma_trim_start(rest, skip);
        let gone = text.len() - trim_start(text, skip).len();
        assert(text.skip(gone) =~= rest.skip(gone - 1));
        assert forall|i: int| 0 <= i < gone implies skip(#[trigger] text[i]) by {
            if i > 0 {
                assert(rest[i - 1] == text[i]);
            }
        }
    } else {
        assert(text.skip(0) =~= text);
    }
}

/// Trimming at the end takes nothing but what is to be skipped, and all of it.
pub proof fn lemma_trim_end(text: Seq<char>, skip: spec_fn(char) -> bool)
    ensures
        trim_end(text, skip).len() <= text.len(),
        trim_end(text, skip) == text.take(trim_end(text, skip).len() as int),
        forall|i: int| trim_end(text, skip).len() <= i < text.len() ==> skip(#[trigger] text[i]),
        trim_end(text, skip).len() > 0 ==> !skip(trim_end(text, skip).last()),
    decreases text.len(),
{
    if text.len() > 0 && skip(text.last()) {
        let rest = text.drop_last();
        lemma_trim_end(rest, skip);
        let kept = trim_end(text, skip).len() as int;
        assert(text.take(kept) =~= rest.take(kept));
        assert forall|i: int| kept <= i < text.len() implies skip(#[trigger] text[i]) by {
            if i < text.len() - 1 {
                assert(rest[i] == text[i]);
            }
        }
    } else {
        assert(text.take(text.len() as int) =~= text);
    }
}

/// A trimmed text is a part of the text that neither starts nor ends with a
/// space, with nothing but spaces around it.
pub proof fn law_trimming_takes_the_spaces_around(text: Seq<char>)
    ensures
        trimmed(text).len() > 0 ==> !is_space(trimmed(text)[0]) && !is_space(trimmed(text).last()),
        exists|from: int|
            {
                &&& 0 <= from <= text.len() - trimmed(text).len()
                &&& #[trigger] text.subrange(from, from + trimmed(text).len()) == trimmed(text)
                &&& forall|i: int|
                    0 <= i < from || from + trimmed(text).len() <= i < text.len() ==> is_space(
                        #[trigger] text[i],
                    )
            },
{
    let skip = |c: char| is_space(c);
    let middle = trim_start(text, skip);
    lemma_trim_start(text, skip);
    lemma_trim_end(middle, skip);
    let from = text.len() - middle.len();
    let rest = trimmed(text);
    assert(text.subrange(from, from + rest.len()) =~= rest);
    assert forall|i: int| 0 <= i < from || from + rest.len() <= i < text.len() implies is_space(
        #[trigger] text[i],
    ) by {
        if i < from {
            assert(skip(text[i]));
        } else {
            assert(middle[i - from] == text[i]);
            assert(skip(middle[i - from]));
        }
    }
    if rest.len() > 0 {
        assert(rest[0] == middle[0]);
    }
}

} // verus!
