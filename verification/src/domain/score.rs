//! Session scoring: the score of one signal under the configured weights. The
//! session's score is the maximum over its signals.

use vstd::prelude::*;

use crate::domain::marker::{bare_name, strip_exe};
use crate::text::{lower_ascii, to_ascii_lowercase};

verus! {

/// Signals the scoring model reacts to.
#[derive(Debug, Clone, Copy, PartialEq, Eq)]
pub enum ScoreSignal<'a> {
    /// A CLI/interpreter process image entered the scope.
    CliInterpreter(&'a str),
    /// A drop was observed.
    DropObserved,
}

/// Weights, mirroring the `[scoring]` section of the configuration.
#[derive(Debug, Clone, Copy, PartialEq, Eq)]
pub struct ScoreWeights {
    /// Score for a CLI/interpreter entering the scope.
    pub cli_started: u32,
    /// Score for an observed drop.
    pub drop_observed: u32,
}

/// The CLI and interpreter programs that score, without `.exe`.
pub open spec fn interpreters() -> Seq<Seq<char>> {
    seq![
        "cmd"@,
        "powershell"@,
        "pwsh"@,
        "wscript"@,
        "cscript"@,
        "mshta"@,
        "rundll32"@,
        "regsvr32"@,
    ]
}

/// Is this image one of them, whatever its case, with or without `.exe`?
pub open spec fn is_interpreter(image: Seq<char>) -> bool {
    interpreters().contains(bare_name(lower_ascii(image)))
}

/// The score of one signal.
pub open spec fn signal_score(weights: ScoreWeights, signal: ScoreSignal<'_>) -> Option<u32> {
    match signal {
        ScoreSignal::CliInterpreter(image) => if is_interpreter(image@) {
            Some(weights.cli_started)
        } else {
            None
        },
        ScoreSignal::DropObserved => Some(weights.drop_observed),
    }
}

/// Is this image one of the CLI/interpreter processes malware commonly abuses?
/// Case-insensitive, `.exe`-suffix tolerant.
pub fn is_cli_interpreter(image: &str) -> (known: bool)
    ensures
        known == is_interpreter(image@),
{
    let lowered = to_ascii_lowercase(image);
    let bare = strip_exe(lowered.as_str());
    proof {
        let list = interpreters();
        assert(list[0] == "cmd"@ && list[1] == "powershell"@ && list[2] == "pwsh"@ && list[3]
            == "wscript"@ && list[4] == "cscript"@ && list[5] == "mshta"@ && list[6] == "rundll32"@
            && list[7] == "regsvr32"@);
    }
    *bare == *"cmd" || *bare == *"powershell" || *bare == *"pwsh" || *bare == *"wscript" || *bare
        == *"cscript" || *bare == *"mshta" || *bare == *"rundll32" || *bare == *"regsvr32"
}

/// Score one signal (`None` = not score-worthy), using the configured weights.
pub fn score_signal(weights: &ScoreWeights, signal: &ScoreSignal<'_>) -> (score: Option<u32>)
    ensures
        score == signal_score(*weights, *signal),
{
    match signal {
        ScoreSignal::CliInterpreter(image) => if is_cli_interpreter(image) {
            Some(weights.cli_started)
        } else {
            None
        },
        ScoreSignal::DropObserved => Some(weights.drop_observed),
    }
}

} // verus!
