//! One interface over both engines: what a search ends in, and how a detection stage
//! reads a match.

use vstd::prelude::*;
use crate::engine::{
    fancy_captures, fancy_compiles, fancy_first_match, set_compiles, set_is_match, std_captures,
    std_compiles, std_first_match, std_group_names, std_replace_all, std_replaced,
};
use crate::error::{ExtractError, GroupIndex, GroupName, PatternId};

verus! {

/// The groups of one match, held as text: `groups[i]` is what group `i` matched, if it took
/// part in the match, and `names[i]` is its name, if the engine reports names and it has one.
#[derive(Clone, Debug)]
pub struct Captures {
    pub groups: Vec<Option<String>>,
    pub names: Vec<Option<String>>,
}

/// A match as the contracts see it.
pub ghost struct MatchText {
    pub groups: Seq<Option<Seq<char>>>,
    pub names: Seq<Option<Seq<char>>>,
}

impl View for Captures {
    type V = MatchText;

    open spec fn view(&self) -> MatchText {
        MatchText { groups: self.groups.deep_view(), names: self.names.deep_view() }
    }
}

impl DeepView for Captures {
    type V = MatchText;

    open spec fn deep_view(&self) -> MatchText {
        self@
    }
}

/// The texts of a list of patterns.
pub open spec fn pattern_texts(patterns: Seq<String>) -> Seq<Seq<char>> {
    Seq::new(patterns.len(), |i: int| patterns[i]@)
}

/// How a search of one pattern in one text ended.
#[derive(Clone, Debug)]
pub enum Search {
    /// The pattern matched; these are the groups of the first match.
    Found(Captures),
    /// The pattern is not in the text.
    Absent,
    /// The pattern did not compile.
    Invalid,
    /// The backtracking engine gave up.
    Exhausted,
}

/// A search as the contracts see it.
pub ghost enum SearchText {
    Found(MatchText),
    Absent,
    Invalid,
    Exhausted,
}

impl View for Search {
    type V = SearchText;

    open spec fn view(&self) -> SearchText {
        match self {
            Search::Found(found) => SearchText::Found(found@),
            Search::Absent => SearchText::Absent,
            Search::Invalid => SearchText::Invalid,
            Search::Exhausted => SearchText::Exhausted,
        }
    }
}

/// How the linear-time engine's search of `pattern` in `haystack` ends.
pub open spec fn std_search(pattern: Seq<char>, haystack: Seq<char>) -> SearchText {
    if !std_compiles(pattern) {
        SearchText::Invalid
    } else {
        match std_captures(pattern, haystack) {
            Some(groups) => SearchText::Found(
                MatchText { groups, names: std_group_names(pattern) },
            ),
            None => SearchText::Absent,
        }
    }
}

/// How the backtracking engine's search of `pattern` in `haystack` ends.
pub open spec fn fancy_search(pattern: Seq<char>, haystack: Seq<char>) -> SearchText {
    if !fancy_compiles(pattern) {
        SearchText::Invalid
    } else {
        match fancy_captures(pattern, haystack) {
            Ok(Some(groups)) => SearchText::Found(MatchText { groups, names: Seq::empty() }),
            Ok(None) => SearchText::Absent,
            Err(_) => SearchText::Exhausted,
        }
    }
}

/// Whether `pattern` matches somewhere in `haystack`.
pub open spec fn std_is_match(pattern: Seq<char>, haystack: Seq<char>) -> bool {
    std_captures(pattern, haystack) is Some
}

/// Whether one of `patterns` matches somewhere in `haystack`; nothing where the patterns
/// do not compile as a set.
pub open spec fn set_search(patterns: Seq<Seq<char>>, haystack: Seq<char>) -> Option<bool> {
    if !set_compiles(patterns) {
        None
    } else {
        Some(
            exists|i: int|
                0 <= i < patterns.len() && std_is_match(#[trigger] patterns[i], haystack),
        )
    }
}

/// `haystack` with every match of `pattern` replaced; nothing where the pattern does not
/// compile.
pub open spec fn std_rewrite(
    pattern: Seq<char>,
    haystack: Seq<char>,
    replacement: Seq<char>,
) -> Option<Seq<char>> {
    if !std_compiles(pattern) {
        None
    } else {
        Some(std_replaced(pattern, haystack, replacement))
    }
}

/// Searches `haystack` for `pattern` with the linear-time engine.
pub fn search(pattern: &str, haystack: &str) -> (r: Search)
    ensures
        r@ == std_search(pattern@, haystack@),
{
    match std_first_match(pattern, haystack) {
        Ok(Some(found)) => Search::Found(found),
        Ok(None) => Search::Absent,
        Err(_) => Search::Invalid,
    }
}

/// Searches `haystack` for `pattern` with the backtracking engine.
pub fn search_backtracking(pattern: &str, haystack: &str) -> (r: Search)
    ensures
        r@ == fancy_search(pattern@, haystack@),
{
    match fancy_first_match(pattern, haystack) {
        Ok(Ok(Some(found))) => {
            assert(found@.names =~= Seq::empty());
            Search::Found(found)
        },
        Ok(Ok(None)) => Search::Absent,
        Ok(Err(_)) => Search::Exhausted,
        Err(_) => Search::Invalid,
    }
}

/// Whether one of `patterns` matches somewhere in `haystack`.
pub fn any_match(patterns: &Vec<String>, haystack: &str) -> (r: Option<bool>)
    ensures
        r == set_search(pattern_texts(patterns@), haystack@),
{
    match set_is_match(patterns, haystack) {
        Ok(hit) => {
            proof {
                let texts = pattern_texts(patterns@);
                if hit {
                    let i = choose|i: int|
                        0 <= i < patterns@.len() && (#[trigger] std_captures(
                            patterns@[i]@,
                            haystack@,
                        )) is Some;
                    assert(std_is_match(texts[i], haystack@));
                } else {
                    assert forall|i: int| 0 <= i < texts.len() implies !std_is_match(
                        #[trigger] texts[i],
                        haystack@,
                    ) by {
                        assert(std_captures(patterns@[i]@, haystack@) is None);
                    }
                }
            }
            Some(hit)
        },
        Err(_) => None,
    }
}

/// Replaces every match of `pattern` in `haystack` by `replacement`.
pub fn rewrite(pattern: &str, haystack: &str, replacement: &str) -> (r: Option<String>)
    ensures
        r.deep_view() == std_rewrite(pattern@, haystack@, replacement@),
{
    match std_replace_all(pattern, haystack, replacement) {
        Ok(text) => Some(text),
        Err(_) => None,
    }
}

impl MatchText {
    /// What group `index` matched, if there is such a group and it took part.
    pub open spec fn group(self, index: int) -> Option<Seq<char>> {
        if 0 <= index < self.groups.len() {
            self.groups[index]
        } else {
            None
        }
    }

    /// Whether `index` is the first group that bears `name`.
    pub open spec fn is_first_named(self, name: Seq<char>, index: int) -> bool {
        &&& 0 <= index < self.names.len()
        &&& self.names[index] == Some(name)
        &&& forall|j: int| 0 <= j < index ==> self.names[j] != Some(name)
    }

    /// What the group called `name` matched, if there is such a group and it took part.
    pub open spec fn named(self, name: Seq<char>) -> Option<Seq<char>> {
        if exists|i: int| self.is_first_named(name, i) {
            self.group(choose|i: int| self.is_first_named(name, i))
        } else {
            None
        }
    }
}

impl SearchText {
    /// The match that a stage cannot do without, or the stage's failure.
    pub open spec fn required(self, pattern: PatternId) -> Result<MatchText, ExtractError> {
        match self {
            SearchText::Found(found) => Ok(found),
            SearchText::Absent => Err(ExtractError::NoMatch { pattern }),
            SearchText::Invalid => Err(ExtractError::PatternCompileError { pattern }),
            SearchText::Exhausted => Err(ExtractError::EngineBacktrackFailure { pattern }),
        }
    }

    /// The match if there is one; only a broken pattern or engine fails the stage.
    pub open spec fn optional(self, pattern: PatternId) -> Result<
        Option<MatchText>,
        ExtractError,
    > {
        match self {
            SearchText::Found(found) => Ok(Some(found)),
            SearchText::Absent => Ok(None),
            SearchText::Invalid => Err(ExtractError::PatternCompileError { pattern }),
            SearchText::Exhausted => Err(ExtractError::EngineBacktrackFailure { pattern }),
        }
    }
}

/// The text of the group `group` of a match of `pattern`, or the failure to report.
pub open spec fn group_of(found: MatchText, group: GroupIndex, pattern: PatternId) -> Result<
    Seq<char>,
    ExtractError,
> {
    match found.group(group.position()) {
        Some(text) => Ok(text),
        None => Err(ExtractError::MissingCapture { pattern, group }),
    }
}

/// The text of the group called `group` of a match of `pattern`, or the failure to report.
pub open spec fn named_of(found: MatchText, group: GroupName, pattern: PatternId) -> Result<
    Seq<char>,
    ExtractError,
> {
    match found.named(group.text()) {
        Some(text) => Ok(text),
        None => Err(ExtractError::MissingNamedGroup { pattern, group }),
    }
}

/// A result as the contracts see it: what was found as text, a failure as it is.
pub open spec fn result_text<T: DeepView, E>(r: Result<T, E>) -> Result<T::V, E> {
    match r {
        Ok(found) => Ok(found.deep_view()),
        Err(e) => Err(e),
    }
}

impl Captures {
    /// What group `index` matched.
    pub fn get(&self, index: usize) -> (r: Option<&str>)
        ensures
            r.deep_view() == self@.group(index as int),
    {
        if index < self.groups.len() {
            match &self.groups[index] {
                Some(text) => Some(text.as_str()),
                None => None,
            }
        } else {
            None
        }
    }

    /// What the group called `name` matched.
    pub fn name(&self, name: &str) -> (r: Option<&str>)
        ensures
            r.deep_view() == self@.named(name@),
    {
        let wanted = name.to_owned();
        let mut i: usize = 0;
        while i < self.names.len()
            invariant
                i <= self.names.len(),
                wanted@ == name@,
                forall|j: int| 0 <= j < i ==> self@.names[j] != Some(name@),
            decreases self.names.len() - i,
        {
            let hit = match &self.names[i] {
                Some(n) => *n == wanted,
                None => false,
            };
            if hit {
                proof {
                    let m = self@;
                    assert(m.names[i as int] == Some(name@));
                    assert(m.is_first_named(name@, i as int));
                    let c = choose|c: int| m.is_first_named(name@, c);
                    assert(c == i);
                }
                return self.get(i);
            }
            i = i + 1;
        }
        proof {
            let m = self@;
            assert forall|c: int| !m.is_first_named(name@, c) by {}
        }
        None
    }

    /// The group `group` of a match of `pattern`, which the stage cannot do without.
    pub fn group(&self, group: GroupIndex, pattern: PatternId) -> (r: Result<&str, ExtractError>)
        ensures
            result_text(r) == group_of(self@, group, pattern),
    {
        match self.get(group.index()) {
            Some(text) => Ok(text),
            None => Err(ExtractError::MissingCapture { pattern, group }),
        }
    }

    /// The group called `group` of a match of `pattern`, which the stage cannot do without.
    pub fn named(&self, group: GroupName, pattern: PatternId) -> (r: Result<&str, ExtractError>)
        ensures
            result_text(r) == named_of(self@, group, pattern),
    {
        match self.name(group.as_str()) {
            Some(text) => Ok(text),
            None => Err(ExtractError::MissingNamedGroup { pattern, group }),
        }
    }
}

impl Search {
    /// The match of `pattern`, without which the stage fails.
    pub fn required(self, pattern: PatternId) -> (r: Result<Captures, ExtractError>)
        ensures
            result_text(r) == self@.required(pattern),
    {
        match self {
            Search::Found(found) => Ok(found),
            Search::Absent => Err(ExtractError::NoMatch { pattern }),
            Search::Invalid => Err(ExtractError::PatternCompileError { pattern }),
            Search::Exhausted => Err(ExtractError::EngineBacktrackFailure { pattern }),
        }
    }

    /// The match of `pattern`, if there is one.
    pub fn optional(self, pattern: PatternId) -> (r: Result<Option<Captures>, ExtractError>)
        ensures
            result_text(r) == self@.optional(pattern),
    {
        match self {
            Search::Found(found) => Ok(Some(found)),
            Search::Absent => Ok(None),
            Search::Invalid => Err(ExtractError::PatternCompileError { pattern }),
            Search::Exhausted => Err(ExtractError::EngineBacktrackFailure { pattern }),
        }
    }
}

} // verus!
