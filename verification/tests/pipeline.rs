use sig_extractor::error::{ExtractError, InputFault, PatternId};
use sig_extractor::{extract_decode_script, extract_script, report};

const TABLE: &str = r#"var tbl="x,y,z".split(",")"#;
const SIGN_FUNCTION: &str =
    "function(a){a=a[tbl[0]](tbl[1]);Obj[tbl[2]](a,3);Obj[tbl[3]](a,7);return a[tbl[4]](tbl[5])};";
const SIGN_OBJECT: &str = "var Obj={ab:function(a,b){a.splice(0,b)},cd:function(a){a.reverse()},\
ef:function(a,b){var c=a[0];a[0]=a[b%a.length];a[b%a.length]=c}};";
const N_FUNCTION: &str = "function(n){var b=n[tbl[0]](tbl[1]),c=[1,2,3];\
try{c[0](b)}catch(d){return tbl[2]+n}return b[tbl[3]](tbl[4])};";
const HELPER: &str = "var Hp={ab:function(a){a.reverse()},cd:function(a,b){a.splice(0,b)}};";
const DIRECT: &str = r#"function(a){a=a.split("");Hp.ab(a,1);Hp.cd(a,2);return a.join("")}"#;
const N_FLATTENED: &str = "function(x){var b=x.split(x.slice(0,0)),c=[1,2];\
try{c[1](b)}catch(d){return tbl[5]+x}return b.join(tbl[6])};";

fn player() -> String {
    format!("'use strict';{};var s={}{}var n={}", TABLE, SIGN_FUNCTION, SIGN_OBJECT, N_FUNCTION)
}

#[test]
fn script_is_decipher_then_n_transform() {
    let script = extract_script(&player()).unwrap();
    assert_eq!(
        script,
        format!(
            "var DisTubeDecipherFunc = {}{}{};var DisTubeNTransformFunc = {}{};",
            SIGN_FUNCTION, SIGN_OBJECT, TABLE, N_FUNCTION, TABLE
        )
    );
}

#[test]
fn script_of_the_older_forms() {
    let body = format!("{};{}var s={};var n={}", TABLE, HELPER, DIRECT, N_FLATTENED);
    let script = extract_script(&body).unwrap();
    assert_eq!(
        script,
        format!(
            ";{}\nvar DisTubeDecipherFunc={};{};var DisTubeNTransformFunc={};",
            HELPER, DIRECT, TABLE, N_FLATTENED
        )
    );
}

#[test]
fn second_run_gives_the_same_script() {
    let body = player();
    assert_eq!(extract_script(&body), extract_script(&body));
    assert_eq!(
        extract_decode_script(Some(body.as_bytes())),
        extract_decode_script(Some(body.as_bytes()))
    );
    let broken = "var s=1;";
    assert_eq!(extract_script(broken), extract_script(broken));
}

#[test]
fn missing_table_fails_before_the_functions_are_looked_for() {
    let body = format!("var s={}{}var n={}", SIGN_FUNCTION, SIGN_OBJECT, N_FUNCTION);
    let e = extract_script(&body).unwrap_err();
    assert_eq!(e, ExtractError::NoMatch { pattern: PatternId::NewTceGlobalVars });
}

#[test]
fn missing_decipher_function_fails_before_the_n_transform() {
    let body = format!("{};var n={}", TABLE, N_FUNCTION);
    assert_eq!(
        extract_script(&body).unwrap_err(),
        ExtractError::NoMatch { pattern: PatternId::Helper }
    );
}

#[test]
fn missing_n_transform_fails_the_whole() {
    let body = format!("{};var s={}{}", TABLE, SIGN_FUNCTION, SIGN_OBJECT);
    assert_eq!(
        extract_script(&body).unwrap_err(),
        ExtractError::NoMatch { pattern: PatternId::NTransformTce }
    );
}

#[test]
fn boundary_reports_success_with_the_script() {
    let body = player();
    let (ok, script) = extract_decode_script(Some(body.as_bytes()));
    assert!(ok);
    assert_eq!(script, extract_script(&body).unwrap());
}

#[test]
fn boundary_reports_failure_with_a_diagnostic() {
    let (ok, message) = extract_decode_script(Some(b"var s=1;"));
    assert!(!ok);
    assert_eq!(
        message,
        "No captures found for input 'body' using regex 'NEW_TCE_GLOBAL_VARS_REGEXP'"
    );
}

#[test]
fn absent_input_is_not_an_empty_one() {
    assert_eq!(extract_decode_script(None), (false, "Input is null".to_string()));
    assert_eq!(
        extract_decode_script(Some(b"")),
        (
            false,
            "No captures found for input 'body' using regex 'NEW_TCE_GLOBAL_VARS_REGEXP'"
                .to_string()
        )
    );
}

#[test]
fn input_that_is_not_text_is_refused() {
    assert_eq!(
        extract_decode_script(Some(&[0x76, 0x61, 0x72, 0xff, 0x20])),
        (false, "Invalid Input string".to_string())
    );
    assert_eq!(
        extract_decode_script(Some(&[0xc3])),
        (false, "Invalid Input string".to_string())
    );
}

#[test]
fn input_beyond_ascii_is_text() {
    let body = format!("/* \u{e9}\u{4e2d} */{}", player());
    let (ok, script) = extract_decode_script(Some(body.as_bytes()));
    assert!(ok);
    assert_eq!(script, extract_script(&player()).unwrap());
}

#[test]
fn report_turns_an_outcome_into_flag_and_text() {
    assert_eq!(report(Ok("s".to_string())), (true, "s".to_string()));
    assert_eq!(
        report(Err(ExtractError::InvalidInput { fault: InputFault::Encoding })),
        (false, "Invalid Input string".to_string())
    );
}
