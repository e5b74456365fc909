//! What the words of the command line set, wherever they stand.

use vstd::prelude::*;

use crate::app::cli::{mode_named, number_of, read, ArgsModel};

verus! {

/// An option sets its own field and no other, and what follows is read on: the
/// word behind `--config` is the configuration's path, the word behind
/// `--target` the target, `--demo` and `--start` stand alone, and the first word
/// that is no option is the mode.
pub proof fn law_each_word_sets_its_own(said: ArgsModel, value: Seq<char>, rest: Seq<Seq<char>>)
    ensures
        read(said, seq!["--config"@, value] + rest) == read(
            (ArgsModel { config_path: value, ..said }),
            rest,
        ),
        read(said, seq!["--target"@, value] + rest) == read(
            (ArgsModel { target: Some(value), ..said }),
            rest,
        ),
        read(said, seq!["--demo"@] + rest) == read((ArgsModel { demo: true, ..said }), rest),
        read(said, seq!["--start"@] + rest) == read((ArgsModel { start: true, ..said }), rest),
        value != "--config"@ && value != "--target"@ && value != "--demo"@ && value != "--start"@
            ==> read(said, seq![value] + rest) == read(
            (ArgsModel {
                mode: if said.mode is None {
                    Some(value)
                } else {
                    said.mode
                },
                ..said
            }),
            rest,
        ),
{
    reveal_strlit("--config");
    reveal_strlit("--target");
    reveal_strlit("--demo");
    reveal_strlit("--start");
    assert("--config"@.len() == 8 && "--target"@.len() == 8 && "--config"@[2] != "--target"@[2]);
    assert("--demo"@.len() == 6 && "--start"@.len() == 7);
    assert((seq!["--config"@, value] + rest).skip(2) =~= rest);
    assert((seq!["--target"@, value] + rest).skip(2) =~= rest);
    assert((seq!["--demo"@] + rest).skip(1) =~= rest);
    assert((seq!["--start"@] + rest).skip(1) =~= rest);
    assert((seq![value] + rest).skip(1) =~= rest);
}

/// A word that is not on the command line sets nothing, the first mode stays, and
/// what was switched on stays on.
pub proof fn law_what_is_not_said_is_not_set(said: ArgsModel, rest: Seq<Seq<char>>)
    ensures
        !rest.contains("--config"@) ==> read(said, rest).config_path == said.config_path,
        !rest.contains("--target"@) ==> read(said, rest).target == said.target,
        !rest.contains("--demo"@) ==> read(said, rest).demo == said.demo,
        !rest.contains("--start"@) ==> read(said, rest).start == said.start,
        said.mode is Some ==> read(said, rest).mode == said.mode,
        said.demo ==> read(said, rest).demo,
        said.start ==> read(said, rest).start,
        said.target is Some ==> read(said, rest).target is Some,
        read(said, rest).mode != said.mode ==> said.mode is None && read(said, rest).mode is Some
            && rest.contains(read(said, rest).mode->0),
        read(said, rest).target != said.target ==> read(said, rest).target is Some && rest.contains(
            read(said, rest).target->0,
        ),
        read(said, rest).config_path != said.config_path ==> rest.contains(
            read(said, rest).config_path,
        ),
    decreases rest.len(),
{
    if rest.len() > 0 {
        assert(rest.contains(rest[0]));
        let takes = rest[0] == "--config"@ || rest[0] == "--target"@;
        if takes && rest.len() > 1 {
            assert(rest.contains(rest[1]));
        }
        let by: int = if takes {
            2
        } else {
            1
        };
        if by <= rest.len() {
            let behind = rest.skip(by);
            assert forall|word: Seq<char>| behind.contains(word) implies rest.contains(word) by {
                let i = choose|i: int| 0 <= i < behind.len() && behind[i] == word;
                assert(rest[i + by] == word);
            }
            if rest[0] == "--config"@ {
                law_what_is_not_said_is_not_set(ArgsModel { config_path: rest[1], ..said }, behind);
            } else if rest[0] == "--target"@ {
                law_what_is_not_said_is_not_set(ArgsModel { target: Some(rest[1]), ..said }, behind);
            } else if rest[0] == "--demo"@ {
                law_what_is_not_said_is_not_set(ArgsModel { demo: true, ..said }, behind);
            } else if rest[0] == "--start"@ {
                law_what_is_not_said_is_not_set(ArgsModel { start: true, ..said }, behind);
            } else if said.mode is None {
                law_what_is_not_said_is_not_set(ArgsModel { mode: Some(rest[0]), ..said }, behind);
            } else {
                law_what_is_not_said_is_not_set(said, behind);
            }
        }
    }
}

/// Only a mode's own name leads to it; everything else runs on the console.
pub proof fn law_modes_go_by_their_names(left: Seq<char>, right: Seq<char>)
    ensures
        mode_named(None) is Console,
        !(mode_named(Some(left)) is Console) && mode_named(Some(left)) == mode_named(Some(right))
            ==> left == right,
{
}

/// A leading plus does not change a number, and a number is read from digits
/// alone.
pub proof fn law_numbers_are_read_from_digits(text: Seq<char>)
    ensures
        text.len() == 0 || text[0] != '+' ==> number_of(seq!['+'] + text) == number_of(text),
        number_of(text) is Some ==> text.len() > 0 && (text[0] == '+' || '0' <= text[0] <= '9')
            && forall|i: int| 1 <= i < text.len() ==> '0' <= #[trigger] text[i] <= '9',
{
    assert((seq!['+'] + text).skip(1) =~= text);
    if number_of(text) is Some && text.len() > 0 && text[0] == '+' {
        let digits = text.skip(1);
        assert forall|i: int| 1 <= i < text.len() implies '0' <= #[trigger] text[i] <= '9' by {
            assert(digits[i - 1] == text[i]);
        }
    }
}

} // verus!
