use sig_extractor::error::{ExtractError, GroupName, PatternId};
use sig_extractor::matcher::{Captures, Search};
use sig_extractor::sig::{extract_tce_func, tce_func_of};

#[test]
fn table_from_a_split_string() {
    let body = r#"'use strict';var tbl="x,y,z".split(",");var other=1;"#;
    let table = extract_tce_func(body).unwrap();
    assert_eq!(table.name, "tbl");
    assert_eq!(table.code, r#"var tbl="x,y,z".split(",")"#);
}

#[test]
fn table_from_an_array_of_strings() {
    let body = r#"(function(){var $T=["ab",'cd', "e\"f"];})"#;
    let table = extract_tce_func(body).unwrap();
    assert_eq!(table.name, "$T");
    assert_eq!(table.code, r#"var $T=["ab",'cd', "e\"f"]"#);
}

#[test]
fn first_declaration_wins() {
    let body = r#"var one="a".split("");var two=["b"];"#;
    let table = extract_tce_func(body).unwrap();
    assert_eq!(table.name, "one");
    assert_eq!(table.code, r#"var one="a".split("")"#);
}

#[test]
fn no_table_is_a_missing_pattern() {
    let e = extract_tce_func("function(a){return a}").unwrap_err();
    assert_eq!(e, ExtractError::NoMatch { pattern: PatternId::NewTceGlobalVars });
    let e = extract_tce_func("").unwrap_err();
    assert_eq!(e, ExtractError::NoMatch { pattern: PatternId::NewTceGlobalVars });
}

#[test]
fn table_is_read_from_the_named_groups() {
    let found = Captures {
        groups: vec![
            Some("whole".to_string()),
            None,
            Some("var t=[]".to_string()),
            Some("t".to_string()),
        ],
        names: vec![None, None, Some("code".to_string()), Some("varname".to_string())],
    };
    let table = tce_func_of(Search::Found(found)).unwrap();
    assert_eq!(table.name, "t");
    assert_eq!(table.code, "var t=[]");
}

#[test]
fn table_without_its_groups_is_malformed() {
    let p = PatternId::NewTceGlobalVars;
    let nameless = Captures { groups: vec![Some("whole".to_string())], names: vec![None] };
    assert_eq!(
        tce_func_of(Search::Found(nameless)).unwrap_err(),
        ExtractError::MissingNamedGroup { pattern: p, group: GroupName::Code }
    );
    let half = Captures {
        groups: vec![Some("whole".to_string()), Some("var t=[]".to_string()), None],
        names: vec![None, Some("code".to_string()), Some("varname".to_string())],
    };
    assert_eq!(
        tce_func_of(Search::Found(half)).unwrap_err(),
        ExtractError::MissingNamedGroup { pattern: p, group: GroupName::Varname }
    );
}

#[test]
fn table_search_that_failed_fails_the_locator() {
    let p = PatternId::NewTceGlobalVars;
    assert_eq!(tce_func_of(Search::Absent).unwrap_err(), ExtractError::NoMatch { pattern: p });
    assert_eq!(
        tce_func_of(Search::Invalid).unwrap_err(),
        ExtractError::PatternCompileError { pattern: p }
    );
    assert_eq!(
        tce_func_of(Search::Exhausted).unwrap_err(),
        ExtractError::EngineBacktrackFailure { pattern: p }
    );
}
