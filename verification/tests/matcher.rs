use sig_extractor::error::{ExtractError, GroupIndex, GroupName, PatternId};
use sig_extractor::matcher::{any_match, rewrite, search, search_backtracking, Captures, Search};

fn text(s: &str) -> Option<String> {
    Some(s.to_string())
}

#[test]
fn search_reports_groups_and_names() {
    let found = match search(r"(?<key>\w+)=(\d+)?(;)", "  width=;") {
        Search::Found(found) => found,
        _ => panic!("the pattern matches"),
    };
    assert_eq!(found.groups, vec![text("width=;"), text("width"), None, text(";")]);
    assert_eq!(found.names, vec![None, text("key"), None, None]);
    assert_eq!(found.get(0), Some("width=;"));
    assert_eq!(found.get(2), None);
    assert_eq!(found.get(4), None);
    assert_eq!(found.name("key"), Some("width"));
    assert_eq!(found.name("value"), None);
}

#[test]
fn search_takes_the_first_match() {
    let found = match search(r"[0-9]+", "a12b345") {
        Search::Found(found) => found,
        _ => panic!("the pattern matches"),
    };
    assert_eq!(found.get(0), Some("12"));
}

#[test]
fn search_tells_absent_from_invalid() {
    assert!(matches!(search(r"[0-9]+", "abc"), Search::Absent));
    assert!(matches!(search(r"(", "abc"), Search::Invalid));
    assert!(matches!(search(r"(a)\1", "aa"), Search::Invalid));
}

#[test]
fn backtracking_search_knows_backreferences() {
    let found = match search_backtracking(r"(\w)=\1\.split", "x;a=b.split;c=c.split;") {
        Search::Found(found) => found,
        _ => panic!("the pattern matches"),
    };
    assert_eq!(found.groups, vec![text("c=c.split"), text("c")]);
    assert!(found.names.is_empty());
    assert_eq!(found.name("c"), None);
}

#[test]
fn backtracking_search_tells_absent_from_invalid() {
    assert!(matches!(search_backtracking(r"(\w)=\1", "a=b"), Search::Absent));
    assert!(matches!(search_backtracking(r"(", "a=b"), Search::Invalid));
}

#[test]
fn backtracking_search_gives_up_on_an_explosive_pattern() {
    let haystack = "xxxxxxxxxxxxxxxxxxxxxxxxxxxxxxxxxxxxxxxxxxxxxxxxy";
    assert!(matches!(search_backtracking(r"(x+x+)+y\1", haystack), Search::Exhausted));
}

#[test]
fn any_match_asks_the_whole_set() {
    let set = vec![r"^a+$".to_string(), r"\d".to_string()];
    assert_eq!(any_match(&set, "xx7"), Some(true));
    assert_eq!(any_match(&set, "aaa"), Some(true));
    assert_eq!(any_match(&set, "xx"), Some(false));
    let broken = vec![r"a".to_string(), r"(".to_string()];
    assert_eq!(any_match(&broken, "a"), None);
    let empty: Vec<String> = Vec::new();
    assert_eq!(any_match(&empty, "a"), Some(false));
}

#[test]
fn rewrite_replaces_every_match() {
    assert_eq!(rewrite(r"a+", "caaabab", "-"), text("c-b-b"));
    assert_eq!(rewrite(r"a+", "xyz", "-"), text("xyz"));
    assert_eq!(rewrite(r"(", "xyz", "-"), None);
}

#[test]
fn required_and_optional_differ_on_absence_only() {
    let p = PatternId::Helper;
    assert_eq!(Search::Absent.required(p).unwrap_err(), ExtractError::NoMatch { pattern: p });
    assert!(Search::Absent.optional(p).unwrap().is_none());
    assert_eq!(
        Search::Invalid.required(p).unwrap_err(),
        ExtractError::PatternCompileError { pattern: p }
    );
    assert_eq!(
        Search::Invalid.optional(p).unwrap_err(),
        ExtractError::PatternCompileError { pattern: p }
    );
    assert_eq!(
        Search::Exhausted.required(p).unwrap_err(),
        ExtractError::EngineBacktrackFailure { pattern: p }
    );
    assert_eq!(
        Search::Exhausted.optional(p).unwrap_err(),
        ExtractError::EngineBacktrackFailure { pattern: p }
    );
    let found = Captures { groups: vec![text("m")], names: vec![None] };
    assert_eq!(Search::Found(found.clone()).required(p).unwrap().groups, vec![text("m")]);
    assert_eq!(Search::Found(found).optional(p).unwrap().unwrap().groups, vec![text("m")]);
}

#[test]
fn group_lookup_fails_with_the_index() {
    let found = Captures { groups: vec![text("m"), None], names: vec![None, text("code")] };
    let p = PatternId::TceGlobalVars;
    assert_eq!(found.group(GroupIndex::First, p), Ok("m"));
    assert_eq!(found.group(GroupIndex::Second, p), Err(ExtractError::MissingCapture { pattern: p, group: GroupIndex::Second }));
    assert_eq!(
        found.group(GroupIndex::Third, p),
        Err(ExtractError::MissingCapture { pattern: p, group: GroupIndex::Third })
    );
    assert_eq!(
        found.named(GroupName::Code, p),
        Err(ExtractError::MissingNamedGroup { pattern: p, group: GroupName::Code })
    );
    assert_eq!(
        found.named(GroupName::Varname, p),
        Err(ExtractError::MissingNamedGroup { pattern: p, group: GroupName::Varname })
    );
}

#[test]
fn named_lookup_takes_the_first_group_of_that_name() {
    let found = Captures {
        groups: vec![text("whole"), text("one"), text("two")],
        names: vec![None, text("varname"), text("varname")],
    };
    assert_eq!(found.name("varname"), Some("one"));
    assert_eq!(found.named(GroupName::Varname, PatternId::NewTceGlobalVars), Ok("one"));
    let short = Captures { groups: vec![text("whole")], names: vec![None, text("code")] };
    assert_eq!(short.name("code"), None);
}
