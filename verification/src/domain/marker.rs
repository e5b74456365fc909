//! Marker-process detection: the configured marker of the interactive session
//! (such as `explorer`) starting is the signal that the session is up.

use vstd::prelude::*;

use crate::text::{chars_of, eq_ignore_ascii_case, lower_ascii, to_ascii_lower};

verus! {

/// The extension that marker names may carry.
pub open spec fn dot_exe() -> Seq<char> {
    seq!['.', 'e', 'x', 'e']
}

/// The name without one trailing `.exe` of any case.
pub open spec fn bare_name(name: Seq<char>) -> Seq<char> {
    if name.len() >= 4 && lower_ascii(name.skip(name.len() - 4)) == dot_exe() {
        name.take(name.len() - 4)
    } else {
        name
    }
}

/// Do the two names mean the same marker? Empty names mean none.
pub open spec fn same_marker(configured: Seq<char>, observed: Seq<char>) -> bool {
    configured.len() > 0 && observed.len() > 0 && lower_ascii(bare_name(configured)) == lower_ascii(
        bare_name(observed),
    )
}

/// Marker-process check, tolerant of names with or without `.exe` and of case.
/// Empty names never match, not even each other.
pub fn is_marker_process(configured: &str, observed: &str) -> (same: bool)
    ensures
        same == same_marker(configured@, observed@),
{
    if configured.is_empty() || observed.is_empty() {
        return false;
    }
    eq_ignore_ascii_case(strip_exe(observed), strip_exe(configured))
}

/// Strip one trailing `.exe` (any case).
pub fn strip_exe(value: &str) -> (bare: &str)
    ensures
        bare@ == bare_name(value@),
{
    let chars = chars_of(value);
    let count: usize = chars.len();
    if count < 4 {
        return value;
    }
    let ghost tail = lower_ascii(value@.skip(count - 4));
    if to_ascii_lower(chars[count - 4]) == '.' && to_ascii_lower(chars[count - 3]) == 'e'
        && to_ascii_lower(chars[count - 2]) == 'x' && to_ascii_lower(chars[count - 1]) == 'e' {
        proof {
            assert(tail =~= dot_exe());
        }
        value.substring_char(0, count - 4)
    } else {
        proof {
            if tail == dot_exe() {
                assert(tail[0] == '.' && tail[1] == 'e' && tail[2] == 'x' && tail[3] == 'e');
            }
        }
        value
    }
}

/// The match does not care which of the two names was configured.
pub proof fn law_marker_match_is_symmetric(left: Seq<char>, right: Seq<char>)
    ensures
        same_marker(left, right) == same_marker(right, left),
{
}

/// A non-empty name matches itself, and matches itself with `.exe` appended
/// unless it already ends so: the extension is stripped once, not repeatedly.
pub proof fn law_marker_tolerates_one_extension(name: Seq<char>)
    requires
        name.len() > 0,
    ensures
        same_marker(name, name),
        bare_name(name) == name ==> same_marker(name, name + dot_exe()),
        bare_name(name) != name ==> !same_marker(name, name + dot_exe()),
{
    let long = name + dot_exe();
    assert(long.skip(long.len() - 4) =~= dot_exe());
    assert(lower_ascii(dot_exe()) =~= dot_exe());
    assert(long.take(long.len() - 4) =~= name);
    assert(bare_name(long) == name);
    if bare_name(name) != name {
        assert(lower_ascii(bare_name(name)).len() < lower_ascii(name).len());
    }
}

} // verus!
