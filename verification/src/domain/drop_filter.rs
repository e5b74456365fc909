//! Drop extension filter: `*` = all, `none` = extensionless, dots optional,
//! case-insensitive.

use vstd::prelude::*;

use crate::domain::image_name::{extension, path_extension};
use crate::text::{chars_of, lowercase, opt_view, text_between, to_lowercase, trim, trim_start, trimmed, views};

verus! {

/// Parsed drop extension filter.
#[derive(Debug, PartialEq, Eq)]
pub struct DropFilter {
    rules: Vec<Rule>,
}

/// One rule of a filter.
#[derive(Debug, PartialEq, Eq)]
pub enum Rule {
    /// `*`: every file matches.
    All,
    /// `none`: extensionless files match.
    Extensionless,
    /// A specific extension, normalized (lowercase, no leading dot).
    Extension(String),
}

/// What a rule says.
pub enum RuleModel {
    /// Every file matches.
    All,
    /// Files without an extension, or with an empty one, match.
    Extensionless,
    /// Files with this extension match.
    Extension(Seq<char>),
}

impl View for Rule {
    type V = RuleModel;

    open spec fn view(&self) -> RuleModel {
        match self {
            Rule::All => RuleModel::All,
            Rule::Extensionless => RuleModel::Extensionless,
            Rule::Extension(text) => RuleModel::Extension(text@),
        }
    }
}

impl View for DropFilter {
    type V = Seq<RuleModel>;

    closed spec fn view(&self) -> Seq<RuleModel> {
        self.rules@.map_values(|rule: Rule| rule@)
    }
}

/// The rule of one configured token, already trimmed and lowercased; a blank
/// token has none.
pub open spec fn token_rule(token: Seq<char>) -> Option<RuleModel> {
    if token.len() == 0 {
        None
    } else if token == seq!['*'] {
        Some(RuleModel::All)
    } else if token == seq!['n', 'o', 'n', 'e'] {
        Some(RuleModel::Extensionless)
    } else {
        Some(RuleModel::Extension(trim_start(token, |c: char| c == '.')))
    }
}

/// The rules of the tokens, in order.
pub open spec fn token_rules(tokens: Seq<Seq<char>>) -> Seq<RuleModel>
    decreases tokens.len(),
{
    if tokens.len() == 0 {
        Seq::empty()
    } else {
        let front = token_rules(tokens.drop_last());
        match token_rule(tokens.last()) {
            Some(rule) => front.push(rule),
            None => front,
        }
    }
}

/// A configured token as it is looked at: without surrounding white space, in
/// lowercase.
pub open spec fn normal_token(raw: Seq<char>) -> Seq<char> {
    lowercase(trimmed(raw))
}

/// Does a rule let a file with this (lowercased) extension pass?
pub open spec fn rule_passes(rule: RuleModel, extension: Option<Seq<char>>) -> bool {
    match rule {
        RuleModel::All => true,
        RuleModel::Extensionless => extension is None || extension->0.len() == 0,
        RuleModel::Extension(expected) => extension == Some(expected),
    }
}

/// Does some rule let it pass?
pub open spec fn passes(rules: Seq<RuleModel>, extension: Option<Seq<char>>) -> bool {
    exists|i: int| 0 <= i < rules.len() && rule_passes(#[trigger] rules[i], extension)
}

/// An extension as it is compared: in lowercase.
pub open spec fn normal_extension(extension: Option<Seq<char>>) -> Option<Seq<char>> {
    match extension {
        Some(text) => Some(lowercase(text)),
        None => None,
    }
}

impl DropFilter {
    /// Parse the filter from configured extension tokens.
    ///
    /// An empty token list matches nothing (secure default: explicit opt-in).
    pub fn new(extensions: &[String]) -> (filter: Self)
        ensures
            filter@ == token_rules(
                views(extensions@).map_values(|raw: Seq<char>| normal_token(raw)),
            ),
    {
        let mut tokens: Vec<String> = Vec::new();
        let ghost normal = |raw: Seq<char>| normal_token(raw);
        let mut at: usize = 0;
        while at < extensions.len()
            invariant
                at <= extensions@.len(),
                normal == (|raw: Seq<char>| normal_token(raw)),
                views(tokens@) == views(extensions@).map_values(normal).take(at as int),
            decreases extensions@.len() - at,
        {
            let ghost prior = views(tokens@);
            tokens.push(to_lowercase(trim(extensions[at].as_str())));
            at = at + 1;
            proof {
                assert(views(tokens@) =~= prior.push(normal_token(extensions@[at - 1]@)));
                assert(views(tokens@) =~= views(extensions@).map_values(normal).take(at as int));
            }
        }
        proof {
            assert(views(tokens@) =~= views(extensions@).map_values(normal));
        }
        DropFilter::from_tokens(&tokens)
    }

    /// The filter of tokens that are already trimmed and lowercased.
    pub fn from_tokens(tokens: &Vec<String>) -> (filter: Self)
        ensures
            filter@ == token_rules(views(tokens@)),
    {
        let mut filter = DropFilter { rules: Vec::new() };
        let mut at: usize = 0;
        proof {
            assert(filter@ =~= token_rules(views(tokens@).take(0)));
        }
        while at < tokens.len()
            invariant
                at <= tokens@.len(),
                filter@ == token_rules(views(tokens@).take(at as int)),
            decreases tokens@.len() - at,
        {
            let ghost prior = filter@;
            let rule = Rule::of_token(tokens[at].as_str());
            proof {
                let head = views(tokens@).take(at + 1);
                assert(head.drop_last() =~= views(tokens@).take(at as int));
                assert(head.last() == tokens@[at as int]@);
            }
            if let Some(rule) = rule {
                filter.rules.push(rule);
                proof {
                    assert(filter@ =~= prior.push(rule@));
                }
            }
            at = at + 1;
        }
        proof {
            assert(views(tokens@).take(tokens@.len() as int) =~= views(tokens@));
        }
        filter
    }

    /// Does this file path pass the filter?
    pub fn matches(&self, path: &str) -> (pass: bool)
        ensures
            pass == passes(self@, normal_extension(path_extension(path@))),
    {
        let lowered = match extension(path) {
            Some(text) => Some(to_lowercase(text.as_str())),
            None => None,
        };
        self.matches_extension(&lowered)
    }

    /// Does a file with this extension, already lowercased, pass the filter?
    pub fn matches_extension(&self, extension: &Option<String>) -> (pass: bool)
        ensures
            pass == passes(self@, opt_view(*extension)),
    {
        let mut at: usize = 0;
        while at < self.rules.len()
            invariant
                at <= self.rules@.len(),
                forall|i: int|
                    0 <= i < at ==> !rule_passes(#[trigger] self@[i], opt_view(*extension)),
            decreases self.rules@.len() - at,
        {
            let pass = match &self.rules[at] {
                Rule::All => true,
                Rule::Extensionless => match extension {
                    Some(text) => text.as_str().is_empty(),
                    None => true,
                },
                Rule::Extension(expected) => match extension {
                    Some(text) => *text == *expected,
                    None => false,
                },
            };
            if pass {
                proof {
                    assert(rule_passes(self@[at as int], opt_view(*extension)));
                }
                return true;
            }
            at = at + 1;
        }
        false
    }
}

impl Default for DropFilter {
    fn default() -> (filter: Self)
        ensures
            filter@ == Seq::<RuleModel>::empty(),
    {
        let filter = DropFilter { rules: Vec::new() };
        proof {
            assert(filter@ =~= Seq::<RuleModel>::empty());
        }
        filter
    }
}

impl Rule {
    /// The rule of one trimmed and lowercased token.
    pub fn of_token(token: &str) -> (rule: Option<Rule>)
        ensures
            match rule {
                Some(rule) => token_rule(token@) == Some(rule@),
                None => token_rule(token@) is None,
            },
    {
        if token.is_empty() {
            return None;
        }
        if *token == *"*" {
            proof {
                reveal_strlit("*");
                assert(token@ =~= seq!['*']);
            }
            return Some(Rule::All);
        }
        if *token == *"none" {
            proof {
                reveal_strlit("none");
                assert(token@ =~= seq!['n', 'o', 'n', 'e']);
            }
            return Some(Rule::Extensionless);
        }
        proof {
            reveal_strlit("*");
            reveal_strlit("none");
            if token@ == seq!['*'] {
                assert(token@ =~= "*"@);
            }
            if token@ == seq!['n', 'o', 'n', 'e'] {
                assert(token@ =~= "none"@);
            }
        }
        Some(Rule::Extension(without_leading_dots(token)))
    }
}

/// The text without its leading dots.
fn without_leading_dots(text: &str) -> (rest: String)
    ensures
        rest@ == trim_start(text@, |c: char| c == '.'),
{
    let chars = chars_of(text);
    let ghost dot = |c: char| c == '.';
    let mut from: usize = 0;
    proof {
        assert(chars@.skip(0) =~= text@);
    }
    while from < chars.len() && chars[from] == '.'
        invariant
            from <= chars@.len(),
            dot == (|c: char| c == '.'),
            trim_start(text@, dot) == trim_start(chars@.skip(from as int), dot),
        decreases chars@.len() - from,
    {
        proof {
            assert(chars@.skip(from as int).skip(1) =~= chars@.skip(from + 1));
        }
        from = from + 1;
    }
    proof {
        assert(chars@.skip(from as int) =~= chars@.subrange(from as int, chars@.len() as int));
    }
    text_between(&chars, from, chars.len())
}

/// `*` among the tokens lets every file pass.
pub proof fn law_star_matches_everything(tokens: Seq<Seq<char>>, extension: Option<Seq<char>>)
    requires
        tokens.contains(seq!['*']),
    ensures
        passes(token_rules(tokens), extension),
    decreases tokens.len(),
{
    let rules = token_rules(tokens);
    if tokens.last() == seq!['*'] {
        assert(rules.last() == RuleModel::All);
        assert(rule_passes(rules[rules.len() - 1], extension));
    } else {
        let at = choose|at: int| 0 <= at < tokens.len() && tokens[at] == seq!['*'];
        assert(tokens.drop_last()[at] == seq!['*']);
        law_star_matches_everything(tokens.drop_last(), extension);
        let front = token_rules(tokens.drop_last());
        let i = choose|i: int| 0 <= i < front.len() && rule_passes(#[trigger] front[i], extension);
        assert(rules[i] == front[i]);
    }
}

/// No tokens, or only blank ones, let nothing pass.
pub proof fn law_blank_filter_matches_nothing(tokens: Seq<Seq<char>>, extension: Option<Seq<char>>)
    requires
        forall|i: int| 0 <= i < tokens.len() ==> (#[trigger] tokens[i]).len() == 0,
    ensures
        !passes(token_rules(tokens), extension),
    decreases tokens.len(),
{
    if tokens.len() > 0 {
        law_blank_filter_matches_nothing(tokens.drop_last(), extension);
    }
}

/// The dot in front of a configured extension is optional. The two words with
/// a meaning of their own are left out: `.none` is an extension, `none` is not.
pub proof fn law_leading_dot_is_optional(token: Seq<char>)
    requires
        token.len() > 0,
        token != seq!['*'],
        token != seq!['n', 'o', 'n', 'e'],
    ensures
        token_rule(seq!['.'] + token) == token_rule(token),
{
    let dotted = seq!['.'] + token;
    assert(dotted[0] == '.');
    assert(dotted.skip(1) =~= token);
    assert(seq!['*'][0] == '*');
    assert(seq!['n', 'o', 'n', 'e'][0] == 'n');
}

/// One more token never takes a match away.
pub proof fn law_more_tokens_match_more(
    tokens: Seq<Seq<char>>,
    token: Seq<char>,
    extension: Option<Seq<char>>,
)
    requires
        passes(token_rules(tokens), extension),
    ensures
        passes(token_rules(tokens.push(token)), extension),
{
    let grown = tokens.push(token);
    assert(grown.drop_last() =~= tokens);
    let front = token_rules(tokens);
    let i = choose|i: int| 0 <= i < front.len() && rule_passes(#[trigger] front[i], extension);
    assert(token_rules(grown)[i] == front[i]);
}

} // verus!
