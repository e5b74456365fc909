//! UTF-16, the encoding of Windows texts.

use vstd::prelude::*;

use crate::text::chars_of;

verus! {

/// `char::from_u32` of the standard library: the character of a code point, and
/// `None` for a number that is no code point of a character (a surrogate, or past
/// the last one).
pub assume_specification[ char::from_u32 ](code: u32) -> (c: Option<char>)
    ensures
        c == if code <= 0xD7FF || 0xE000 <= code <= 0x10FFFF {
            Some(code as char)
        } else {
            None
        },
;

/// The units of one character: itself, or a surrogate pair.
pub open spec fn units_of(c: char) -> Seq<u16> {
    let code = c as u32;
    if code < 0x10000 {
        seq![code as u16]
    } else {
        seq![
            (0xD800 + (code - 0x10000) / 0x400) as u16,
            (0xDC00 + (code - 0x10000) % 0x400) as u16,
        ]
    }
}

/// The units of a text.
pub open spec fn encoded(text: Seq<char>) -> Seq<u16>
    decreases text.len(),
{
    if text.len() == 0 {
        Seq::empty()
    } else {
        units_of(text[0]) + encoded(text.skip(1))
    }
}

/// First of a surrogate pair.
pub open spec fn is_high(unit: u16) -> bool {
    0xD800 <= unit <= 0xDBFF
}

/// Second of a surrogate pair.
pub open spec fn is_low(unit: u16) -> bool {
    0xDC00 <= unit <= 0xDFFF
}

/// The character of a surrogate pair.
pub open spec fn paired(high: u16, low: u16) -> char {
    (0x10000 + (high - 0xD800) * 0x400 + (low - 0xDC00)) as char
}

/// A text in front of another, where there is another.
pub open spec fn prepended(head: Seq<char>, rest: Option<Seq<char>>) -> Option<Seq<char>> {
    match rest {
        Some(rest) => Some(head + rest),
        None => None,
    }
}

/// The text of the units; `None` where a surrogate stands alone.
pub open spec fn decoded(units: Seq<u16>) -> Option<Seq<char>>
    decreases units.len(),
{
    if units.len() == 0 {
        Some(Seq::empty())
    } else if !is_high(units[0]) && !is_low(units[0]) {
        prepended(seq![units[0] as char], decoded(units.skip(1)))
    } else if is_high(units[0]) && units.len() > 1 && is_low(units[1]) {
        prepended(seq![paired(units[0], units[1])], decoded(units.skip(2)))
    } else {
        None
    }
}

/// The code point of a character is no surrogate, and gives the character back.
proof fn lemma_code(c: char)
    ensures
        c as u32 <= 0xD7FF || 0xE000 <= c as u32 <= 0x10FFFF,
        (c as u32) as char == c,
{
}

/// Every text is read back from its units.
pub proof fn law_utf16_round_trips(text: Seq<char>)
    ensures
        decoded(encoded(text)) == Some(text),
    decreases text.len(),
{
    if text.len() > 0 {
        let head = units_of(text[0]);
        let rest = encoded(text.skip(1));
        let units = encoded(text);
        law_utf16_round_trips(text.skip(1));
        assert(units.skip(head.len() as int) =~= rest);
        assert(seq![text[0]] + text.skip(1) =~= text);
        let c = text[0];
        let code = c as u32;
        lemma_code(c);
        assert(units[0] == head[0]);
        if code < 0x10000 {
            assert(units[0] as char == c);
            assert(decoded(units) == prepended(seq![c], decoded(rest)));
        } else {
            let offset: int = code - 0x10000;
            assert(units[1] == head[1]);
            assert(0 <= offset / 0x400 < 0x400 && 0 <= offset % 0x400 < 0x400);
            assert(units[0] == 0xD800 + offset / 0x400);
            assert(units[1] == 0xDC00 + offset % 0x400);
            assert(offset == (offset / 0x400) * 0x400 + offset % 0x400);
            assert(paired(units[0], units[1]) == c);
            assert(decoded(units) == prepended(seq![c], decoded(rest)));
        }
    } else {
        assert(text =~= Seq::<char>::empty());
    }
}

/// The UTF-16 units of a text.
pub fn encode_utf16(text: &str) -> (units: Vec<u16>)
    ensures
        units@ == encoded(text@),
{
    let chars = chars_of(text);
    let mut units: Vec<u16> = Vec::new();
    let mut at: usize = 0;
    proof {
        assert(text@.skip(0) =~= text@);
    }
    while at < chars.len()
        invariant
            at <= chars@.len(),
            chars@ == text@,
            encoded(text@) == units@ + encoded(text@.skip(at as int)),
        decreases chars@.len() - at,
    {
        let ghost before = units@;
        let code: u32 = chars[at] as u32;
        if code < 0x10000 {
            units.push(code as u16);
        } else {
            let offset: u32 = code - 0x10000;
            units.push((0xD800 + offset / 0x400) as u16);
            units.push((0xDC00 + offset % 0x400) as u16);
        }
        proof {
            assert(units@ =~= before + units_of(text@[at as int]));
            assert(text@.skip(at as int).skip(1) =~= text@.skip(at + 1));
            assert(before + (units_of(text@[at as int]) + encoded(text@.skip(at + 1))) =~= units@ + encoded(
                text@.skip(at + 1),
            ));
        }
        at = at + 1;
    }
    proof {
        assert(encoded(text@.skip(at as int)) =~= Seq::<u16>::empty());
        assert(units@ =~= encoded(text@));
    }
    units
}

/// The text of UTF-16 units; `None` where a surrogate stands alone.
pub fn decode_utf16(units: &Vec<u16>) -> (text: Option<String>)
    ensures
        crate::text::opt_view(text) == decoded(units@),
{
    let mut text = String::new();
    let mut at: usize = 0;
    proof {
        assert(units@.skip(0) =~= units@);
        assert(decoded(units@) == prepended(text@, decoded(units@))) by {
            if decoded(units@) is Some {
                assert(text@ + decoded(units@)->0 =~= decoded(units@)->0);
            }
        }
    }
    while at < units.len()
        invariant
            at <= units@.len(),
            decoded(units@) == prepended(text@, decoded(units@.skip(at as int))),
        decreases units@.len() - at,
    {
        let ghost before = text@;
        let ghost rest = units@.skip(at as int);
        let unit: u16 = units[at];
        let step: usize;
        let code: u32;
        if unit < 0xD800 || unit > 0xDFFF {
            code = unit as u32;
            step = 1;
        } else if unit <= 0xDBFF && at + 1 < units.len() && 0xDC00 <= units[at + 1] && units[at + 1]
            <= 0xDFFF {
            code = 0x10000 + (unit as u32 - 0xD800) * 0x400 + (units[at + 1] as u32 - 0xDC00);
            step = 2;
        } else {
            return None;
        }
        proof {
            assert(rest[0] == unit);
            assert(step == 2 ==> rest[1] == units@[at + 1]);
            assert(rest.skip(step as int) =~= units@.skip(at + step));
        }
        match char::from_u32(code) {
            Some(c) => {
                text.push(c);
                proof {
                    let tail = decoded(units@.skip(at + step));
                    assert(decoded(rest) == prepended(seq![c], tail));
                    if tail is Some {
                        assert(before + (seq![c] + tail->0) =~= text@ + tail->0);
                    }
                }
            },
            None => {
                proof {
                    assert(false);
                }
                return None;
            },
        }
        at = at + step;
    }
    proof {
        assert(decoded(units@.skip(at as int)) == Some(Seq::<char>::empty()));
        assert(text@ + Seq::<char>::empty() =~= text@);
    }
    Some(text)
}

/// Units that give a text are the text's units: nothing is repaired or left out.
pub proof fn law_units_are_written_back(units: Seq<u16>)
    ensures
        decoded(units) matches Some(text) ==> encoded(text) == units,
    decreases units.len(),
{
    if units.len() > 0 && decoded(units) is Some {
        let text = decoded(units)->0;
        let first = units[0];
        if !is_high(first) && !is_low(first) {
            let rest = decoded(units.skip(1))->0;
            law_units_are_written_back(units.skip(1));
            assert(text[0] == first as char);
            assert((first as char) as u32 == first);
            assert(text.skip(1) =~= rest);
            assert(encoded(text) =~= units);
        } else {
            let second = units[1];
            let rest = decoded(units.skip(2))->0;
            law_units_are_written_back(units.skip(2));
            let code: int = 0x10000 + (first - 0xD800) * 0x400 + (second - 0xDC00);
            assert(0x10000 <= code <= 0x10FFFF);
            assert(text[0] == paired(first, second));
            assert(text[0] as u32 == code);
            assert((code - 0x10000) / 0x400 == first - 0xD800);
            assert((code - 0x10000) % 0x400 == second - 0xDC00);
            assert(text.skip(1) =~= rest);
            assert(encoded(text) =~= units);
        }
    }
}

} // verus!
