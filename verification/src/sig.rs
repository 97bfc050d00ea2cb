//! The three extractors: the constant table, the decipher function and the n-transform
//! function.
//!
//! Each extractor is a cascade of detection stages. A stage searches the player script for
//! one pattern of the catalog and either yields text, steps aside for the next stage, or
//! fails the whole extraction. The contracts say, stage by stage, which search decides what.

use vstd::prelude::*;
use vstd::string::StringExecFns;
use crate::catalog::{
    action_patterns, action_patterns_text, cleaned_function_pattern, cleaned_function_text,
    decipher_regexp, decipher_regexp_text, flagged, flagged_text, helper_regexp,
    helper_regexp_text, short_circuit_pattern, short_circuit_text, DECIPHER_FUNC_NAME,
    FOR_PARAM_MATCHING, FUNCTION_TCE_REGEXP, NEW_TCE_GLOBAL_VARS_REGEXP, N_TRANSFORM_FUNC_NAME,
    N_TRANSFORM_REGEXP, N_TRANSFORM_TCE_REGEXP, TCE_GLOBAL_VARS_REGEXP, TCE_N_FUNCTION_REGEXP,
    TCE_SIGN_FUNCTION_ACTION_REGEXP, TCE_SIGN_FUNCTION_REGEXP,
};
use crate::engine::{escape, escaped_text, replace_text, replaced_text};
use crate::error::{ExtractError, GroupIndex, GroupName, PatternId};
use crate::matcher::{
    any_match, fancy_search, group_of, named_of, pattern_texts, result_text, rewrite, search,
    search_backtracking, set_search, std_rewrite, std_search, MatchText, Search, SearchText,
};

verus! {

/// The constant table of a player script: the name it is bound to and the statement that
/// declares it.
#[derive(Clone, Debug)]
pub struct ExtractTceFunc {
    pub name: String,
    pub code: String,
}

/// A constant table as the contracts see it.
pub ghost struct TableText {
    pub name: Seq<char>,
    pub code: Seq<char>,
}

impl View for ExtractTceFunc {
    type V = TableText;

    open spec fn view(&self) -> TableText {
        TableText { name: self.name@, code: self.code@ }
    }
}

impl DeepView for ExtractTceFunc {
    type V = TableText;

    open spec fn deep_view(&self) -> TableText {
        self@
    }
}

/// The pattern that the constant table is searched with.
pub open spec fn table_pattern() -> Seq<char> {
    flagged_text("m"@, NEW_TCE_GLOBAL_VARS_REGEXP@)
}

/// The constant table that a search for its declaration yields.
pub open spec fn table_of(found: SearchText) -> Result<TableText, ExtractError> {
    match found.required(PatternId::NewTceGlobalVars) {
        Err(e) => Err(e),
        Ok(found) => match named_of(found, GroupName::Code, PatternId::NewTceGlobalVars) {
            Err(e) => Err(e),
            Ok(code) => match named_of(found, GroupName::Varname, PatternId::NewTceGlobalVars) {
                Err(e) => Err(e),
                Ok(name) => Ok(TableText { name, code }),
            },
        },
    }
}

/// Reads the constant table out of a search for its declaration: the groups `code` and
/// `varname` of the match.
pub fn tce_func_of(found: Search) -> (r: Result<ExtractTceFunc, ExtractError>)
    ensures
        result_text(r) == table_of(found@),
{
    let found = found.required(PatternId::NewTceGlobalVars)?;
    let code = found.named(GroupName::Code, PatternId::NewTceGlobalVars)?;
    let name = found.named(GroupName::Varname, PatternId::NewTceGlobalVars)?;
    Ok(ExtractTceFunc { name: String::from_str(name), code: String::from_str(code) })
}

/// Locates the constant table: the first `var X = "...".split("...")` or array of strings
/// in `body`.
pub fn extract_tce_func(body: &str) -> (r: Result<ExtractTceFunc, ExtractError>)
    ensures
        result_text(r) == table_of(std_search(table_pattern(), body@)),
{
    let pattern = flagged("m", NEW_TCE_GLOBAL_VARS_REGEXP);
    tce_func_of(search(pattern.as_str(), body))
}

/// `var DisTubeDecipherFunc = <function><object><table>;`
pub open spec fn action_table_text(
    function: Seq<char>,
    object: Seq<char>,
    table: Seq<char>,
) -> Seq<char> {
    "var "@ + DECIPHER_FUNC_NAME@ + " = "@ + function + object + table + ";"@
}

/// `<globals>;<helper>`, a line break, `var DisTubeDecipherFunc=<function>;`
pub open spec fn helper_form_text(
    globals: Seq<char>,
    helper: Seq<char>,
    function: Seq<char>,
) -> Seq<char> {
    globals + ";"@ + helper + "\nvar "@ + DECIPHER_FUNC_NAME@ + "="@ + function + ";"@
}

/// `var DisTubeNTransformFunc = <function><table>;`
pub open spec fn n_table_text(function: Seq<char>, table: Seq<char>) -> Seq<char> {
    "var "@ + N_TRANSFORM_FUNC_NAME@ + " = "@ + function + table + ";"@
}

/// `<globals>;var DisTubeNTransformFunc=<function>;`
pub open spec fn n_plain_text(globals: Seq<char>, function: Seq<char>) -> Seq<char> {
    globals + ";var "@ + N_TRANSFORM_FUNC_NAME@ + "="@ + function + ";"@
}

/// The decipher script of the consolidated form: the function, its object of actions and
/// the constant table behind one declaration.
pub fn action_table_script(function: &str, object: &str, table: &str) -> (r: String)
    ensures
        r@ == action_table_text(function@, object@, table@),
{
    let mut script = String::from_str("var ");
    script.append(DECIPHER_FUNC_NAME);
    script.append(" = ");
    script.append(function);
    script.append(object);
    script.append(table);
    script.append(";");
    script
}

/// The decipher script of the helper-object form.
pub fn helper_form_script(globals: &str, helper: &str, function: &str) -> (r: String)
    ensures
        r@ == helper_form_text(globals@, helper@, function@),
{
    let mut script = String::from_str(globals);
    script.append(";");
    script.append(helper);
    script.append("\nvar ");
    script.append(DECIPHER_FUNC_NAME);
    script.append("=");
    script.append(function);
    script.append(";");
    script
}

/// The n-transform script of the form that works through the constant table.
pub fn n_table_script(function: &str, table: &str) -> (r: String)
    ensures
        r@ == n_table_text(function@, table@),
{
    let mut script = String::from_str("var ");
    script.append(N_TRANSFORM_FUNC_NAME);
    script.append(" = ");
    script.append(function);
    script.append(table);
    script.append(";");
    script
}

/// The n-transform script of the other forms.
pub fn n_plain_script(globals: &str, function: &str) -> (r: String)
    ensures
        r@ == n_plain_text(globals@, function@),
{
    let mut script = String::from_str(globals);
    script.append(";var ");
    script.append(N_TRANSFORM_FUNC_NAME);
    script.append("=");
    script.append(function);
    script.append(";");
    script
}

/// What the consolidated form makes of the searches for the function and for its object:
/// a script where both are found, nothing where either is absent.
pub open spec fn action_table_of(
    function: SearchText,
    object: SearchText,
    table: Seq<char>,
) -> Result<Option<Seq<char>>, ExtractError> {
    match function.optional(PatternId::TceSignFunction) {
        Err(e) => Err(e),
        Ok(function) => match object.optional(PatternId::TceSignFunctionAction) {
            Err(e) => Err(e),
            Ok(object) => if function is Some && object is Some {
                match group_of(function->0, GroupIndex::First, PatternId::TceSignFunction) {
                    Err(e) => Err(e),
                    Ok(function) => match group_of(
                        object->0,
                        GroupIndex::First,
                        PatternId::TceSignFunctionAction,
                    ) {
                        Err(e) => Err(e),
                        Ok(object) => Ok(Some(action_table_text(function, object, table))),
                    },
                }
            } else {
                Ok(None)
            },
        },
    }
}

/// The consolidated form, decided from the two searches.
pub fn action_table_stage(function: Search, object: Search, table: &str) -> (r: Result<
    Option<String>,
    ExtractError,
>)
    ensures
        result_text(r) == action_table_of(function@, object@, table@),
{
    let function = function.optional(PatternId::TceSignFunction)?;
    let object = object.optional(PatternId::TceSignFunctionAction)?;
    match (function, object) {
        (Some(function), Some(object)) => {
            let function = function.group(GroupIndex::First, PatternId::TceSignFunction)?;
            let object = object.group(GroupIndex::First, PatternId::TceSignFunctionAction)?;
            Ok(Some(action_table_script(function, object, table)))
        },
        _ => Ok(None),
    }
}

/// The pattern of the consolidated decipher function.
pub open spec fn sign_function_pattern() -> Seq<char> {
    flagged_text("s"@, TCE_SIGN_FUNCTION_REGEXP@)
}

/// The pattern of the object of actions.
pub open spec fn sign_action_pattern() -> Seq<char> {
    flagged_text("s"@, TCE_SIGN_FUNCTION_ACTION_REGEXP@)
}

/// The pattern of the helper object.
pub open spec fn helper_pattern() -> Seq<char> {
    flagged_text("s"@, helper_regexp_text())
}

/// The pattern of the direct decipher function.
pub open spec fn decipher_pattern() -> Seq<char> {
    flagged_text("s"@, decipher_regexp_text())
}

/// The pattern of the flattened decipher function.
pub open spec fn function_tce_pattern() -> Seq<char> {
    flagged_text("s"@, FUNCTION_TCE_REGEXP@)
}

/// The pattern of the globals that a flattened function may depend on.
pub open spec fn global_vars_pattern() -> Seq<char> {
    flagged_text("m"@, TCE_GLOBAL_VARS_REGEXP@)
}

/// The pattern of the n-transform function that works through the constant table.
pub open spec fn n_function_pattern() -> Seq<char> {
    flagged_text("s"@, TCE_N_FUNCTION_REGEXP@)
}

/// The pattern of the n-transform function with a prefixed literal as its fallback.
pub open spec fn n_transform_pattern() -> Seq<char> {
    flagged_text("s"@, N_TRANSFORM_REGEXP@)
}

/// The pattern of the older flattened n-transform function.
pub open spec fn n_transform_tce_pattern() -> Seq<char> {
    flagged_text("s"@, N_TRANSFORM_TCE_REGEXP@)
}

/// The consolidated form on `body`.
pub open spec fn action_table_form(body: Seq<char>, table: Seq<char>) -> Result<
    Option<Seq<char>>,
    ExtractError,
> {
    action_table_of(
        fancy_search(sign_function_pattern(), body),
        std_search(sign_action_pattern(), body),
        table,
    )
}

/// Whether the helper object's body may pass: one of the four actions has to be in it.
pub open spec fn recognised_of(hit: Option<bool>) -> Result<(), ExtractError> {
    match hit {
        None => Err(ExtractError::PatternCompileError { pattern: PatternId::PatternSet }),
        Some(false) => Err(ExtractError::NoMatch { pattern: PatternId::PatternSet }),
        Some(true) => Ok(()),
    }
}

/// Passes a helper object's body in which one of the four actions was found, and fails
/// one in which none was.
pub fn recognised(hit: Option<bool>) -> (r: Result<(), ExtractError>)
    ensures
        r == recognised_of(hit),
{
    match hit {
        None => Err(ExtractError::PatternCompileError { pattern: PatternId::PatternSet }),
        Some(false) => Err(ExtractError::NoMatch { pattern: PatternId::PatternSet }),
        Some(true) => Ok(()),
    }
}

/// The function that the first of two searches yields, or nothing where it is absent.
pub open spec fn first_choice_of(first: SearchText, id: PatternId) -> Result<
    Option<Seq<char>>,
    ExtractError,
> {
    match first.optional(id) {
        Err(e) => Err(e),
        Ok(None) => Ok(None),
        Ok(Some(found)) => match group_of(found, GroupIndex::First, id) {
            Err(e) => Err(e),
            Ok(function) => Ok(Some(function)),
        },
    }
}

/// The function that the second of two searches yields; there is none behind it.
pub open spec fn second_choice_of(second: SearchText, id: PatternId) -> Result<
    Seq<char>,
    ExtractError,
> {
    match second.required(id) {
        Err(e) => Err(e),
        Ok(found) => group_of(found, GroupIndex::First, id),
    }
}

/// The function that one of two searches yields, the second being tried only where the
/// first finds nothing, and whether it was the second that found it.
pub open spec fn first_or_second(
    first: SearchText,
    first_id: PatternId,
    second: SearchText,
    second_id: PatternId,
) -> Result<(Seq<char>, bool), ExtractError> {
    match first_choice_of(first, first_id) {
        Err(e) => Err(e),
        Ok(Some(function)) => Ok((function, false)),
        Ok(None) => match second_choice_of(second, second_id) {
            Err(e) => Err(e),
            Ok(function) => Ok((function, true)),
        },
    }
}

/// Reads the function out of the first of two searches: the whole match, or nothing where
/// the pattern is absent and the second search has to decide.
pub fn first_choice(first: Search, id: PatternId) -> (r: Result<Option<String>, ExtractError>)
    ensures
        result_text(r) == first_choice_of(first@, id),
{
    match first.optional(id)? {
        None => Ok(None),
        Some(found) => {
            let function = found.group(GroupIndex::First, id)?;
            Ok(Some(String::from_str(function)))
        },
    }
}

/// Reads the function out of the second of two searches: the whole match.
pub fn second_choice(second: Search, id: PatternId) -> (r: Result<String, ExtractError>)
    ensures
        result_text(r) == second_choice_of(second@, id),
{
    let found = second.required(id)?;
    let function = found.group(GroupIndex::First, id)?;
    Ok(String::from_str(function))
}

/// Chooses between two searches for a function: the first where it found one, else the
/// second, and says whether it was the second.
pub fn function_stage(
    first: Search,
    first_id: PatternId,
    second: Search,
    second_id: PatternId,
) -> (r: Result<(String, bool), ExtractError>)
    ensures
        result_text(r) == first_or_second(first@, first_id, second@, second_id),
{
    match first_choice(first, first_id)? {
        Some(function) => Ok((function, false)),
        None => {
            let function = second_choice(second, second_id)?;
            Ok((function, true))
        },
    }
}

/// The globals that a search for them yields: group 1 of the match, or nothing where there
/// is no match.
pub open spec fn globals_of(found: SearchText) -> Result<Seq<char>, ExtractError> {
    match found.optional(PatternId::TceGlobalVars) {
        Err(e) => Err(e),
        Ok(None) => Ok(Seq::empty()),
        Ok(Some(found)) => group_of(found, GroupIndex::Second, PatternId::TceGlobalVars),
    }
}

/// Reads the globals out of a search for them.
pub fn globals_stage(found: Search) -> (r: Result<String, ExtractError>)
    ensures
        result_text(r) == globals_of(found@),
{
    match found.optional(PatternId::TceGlobalVars)? {
        None => Ok(String::new()),
        Some(found) => {
            let globals = found.group(GroupIndex::Second, PatternId::TceGlobalVars)?;
            Ok(String::from_str(globals))
        },
    }
}

/// The globals that go before a function of `body`: those that the search finds where the
/// function is a flattened one, none else.
pub open spec fn globals_for(body: Seq<char>, is_tce: bool) -> Result<Seq<char>, ExtractError> {
    if is_tce {
        globals_of(fancy_search(global_vars_pattern(), body))
    } else {
        Ok(Seq::empty())
    }
}

/// Finds the globals that go before a function of `body`.
pub fn find_globals(body: &str, is_tce: bool) -> (r: Result<String, ExtractError>)
    ensures
        result_text(r) == globals_for(body@, is_tce),
{
    if is_tce {
        let pattern = flagged("m", TCE_GLOBAL_VARS_REGEXP);
        globals_stage(search_backtracking(pattern.as_str(), body))
    } else {
        Ok(String::new())
    }
}

/// The decipher function of the helper-object form: the direct one, else the flattened one.
pub open spec fn decipher_function(body: Seq<char>) -> Result<(Seq<char>, bool), ExtractError> {
    first_or_second(
        fancy_search(decipher_pattern(), body),
        PatternId::Decipher,
        std_search(function_tce_pattern(), body),
        PatternId::FunctionTce,
    )
}

/// Finds the decipher function of the helper-object form.
pub fn find_decipher_function(body: &str) -> (r: Result<(String, bool), ExtractError>)
    ensures
        result_text(r) == decipher_function(body@),
{
    let direct = decipher_regexp();
    let pattern = flagged("s", direct.as_str());
    match first_choice(search_backtracking(pattern.as_str(), body), PatternId::Decipher)? {
        Some(function) => Ok((function, false)),
        None => {
            let pattern = flagged("s", FUNCTION_TCE_REGEXP);
            let function = second_choice(search(pattern.as_str(), body), PatternId::FunctionTce)?;
            Ok((function, true))
        },
    }
}

/// The helper object that a search for it yields: the whole declaration, and the body
/// between its braces, which is group 2 of the match.
pub open spec fn helper_of(found: SearchText) -> Result<(Seq<char>, Seq<char>), ExtractError> {
    match found.required(PatternId::Helper) {
        Err(e) => Err(e),
        Ok(found) => match group_of(found, GroupIndex::First, PatternId::Helper) {
            Err(e) => Err(e),
            Ok(helper) => match group_of(found, GroupIndex::Third, PatternId::Helper) {
                Err(e) => Err(e),
                Ok(actions) => Ok((helper, actions)),
            },
        },
    }
}

/// Reads the helper object out of a search for it: its declaration and its body.
pub fn helper_stage(found: Search) -> (r: Result<(String, String), ExtractError>)
    ensures
        result_text(r) == helper_of(found@),
{
    let found = found.required(PatternId::Helper)?;
    let helper = found.group(GroupIndex::First, PatternId::Helper)?;
    let actions = found.group(GroupIndex::Third, PatternId::Helper)?;
    Ok((String::from_str(helper), String::from_str(actions)))
}

/// The helper-object form on `body`: the helper object is located by its shape, then one
/// of the four actions has to be in its body, then the decipher function is looked for.
pub open spec fn helper_form(body: Seq<char>) -> Result<Seq<char>, ExtractError> {
    match helper_of(std_search(helper_pattern(), body)) {
        Err(e) => Err(e),
        Ok((helper, actions)) => match recognised_of(
            set_search(action_patterns_text(), actions),
        ) {
            Err(e) => Err(e),
            Ok(_) => match decipher_function(body) {
                Err(e) => Err(e),
                Ok((function, is_tce)) => match globals_for(body, is_tce) {
                    Err(e) => Err(e),
                    Ok(globals) => Ok(helper_form_text(globals, helper, function)),
                },
            },
        },
    }
}

/// The decipher script of `body`, given the constant table's declaration.
pub open spec fn decipher_script(body: Seq<char>, table: Seq<char>) -> Result<
    Seq<char>,
    ExtractError,
> {
    match action_table_form(body, table) {
        Err(e) => Err(e),
        Ok(Some(script)) => Ok(script),
        Ok(None) => helper_form(body),
    }
}

/// Extracts the decipher function of `body` as a script that binds it to
/// `DisTubeDecipherFunc`. `code` is the declaration of the constant table.
///
/// The consolidated form is tried first and wins where the function and its object of
/// actions are both found. Else a helper object has to be there. It is refused where
/// none of the four actions is in its body, which is another failure than its absence.
/// Beside it the decipher function is looked for, direct or flattened.
pub fn extract_decipher_func(body: &str, code: &str) -> (r: Result<String, ExtractError>)
    ensures
        result_text(r) == decipher_script(body@, code@),
{
    let sign_function = flagged("s", TCE_SIGN_FUNCTION_REGEXP);
    let function = search_backtracking(sign_function.as_str(), body);
    if let Search::Invalid = function {
        return Err(ExtractError::PatternCompileError { pattern: PatternId::TceSignFunction });
    }
    if let Search::Exhausted = function {
        return Err(ExtractError::EngineBacktrackFailure { pattern: PatternId::TceSignFunction });
    }
    let sign_action = flagged("s", TCE_SIGN_FUNCTION_ACTION_REGEXP);
    let object = search(sign_action.as_str(), body);
    if let Some(script) = action_table_stage(function, object, code)? {
        return Ok(script);
    }
    let helper_text = helper_regexp();
    let helper_flagged = flagged("s", helper_text.as_str());
    let (helper, actions) = helper_stage(search(helper_flagged.as_str(), body))?;
    let set = action_patterns();
    proof {
        assert(pattern_texts(set@) =~= action_patterns_text());
    }
    recognised(any_match(&set, actions.as_str()))?;
    let (function, is_tce) = find_decipher_function(body)?;
    let globals = find_globals(body, is_tce)?;
    Ok(helper_form_script(globals.as_str(), helper.as_str(), function.as_str()))
}

/// The pattern of the early return in a function that works through the table `name`.
pub open spec fn short_circuit_for(name: Seq<char>) -> Seq<char> {
    short_circuit_text(escaped_text(name))
}

/// `function` without the early return that a search for it found: every occurrence of the
/// text found gives way to a semicolon. Where nothing was found the function stays as it is.
pub open spec fn without_short_circuit(function: Seq<char>, guard: SearchText) -> Result<
    Seq<char>,
    ExtractError,
> {
    match guard.optional(PatternId::ShortCircuit) {
        Err(e) => Err(e),
        Ok(None) => Ok(function),
        Ok(Some(found)) => match group_of(found, GroupIndex::First, PatternId::ShortCircuit) {
            Err(e) => Err(e),
            Ok(guard) => Ok(replaced_text(function, guard, ";"@)),
        },
    }
}

/// Takes the early return that `guard` found out of `function`.
pub fn strip_short_circuit(function: &str, guard: Search) -> (r: Result<String, ExtractError>)
    ensures
        result_text(r) == without_short_circuit(function@, guard@),
{
    match guard.optional(PatternId::ShortCircuit)? {
        None => Ok(String::from_str(function)),
        Some(found) => {
            let guard = found.group(GroupIndex::First, PatternId::ShortCircuit)?;
            Ok(replace_text(function, guard, ";"))
        },
    }
}

/// The n-transform script of the form that works through the constant table, from the
/// match of the function.
pub open spec fn n_table_form(found: MatchText, name: Seq<char>, table: Seq<char>) -> Result<
    Seq<char>,
    ExtractError,
> {
    match group_of(found, GroupIndex::First, PatternId::TceNFunction) {
        Err(e) => Err(e),
        Ok(function) => match without_short_circuit(
            function,
            std_search(short_circuit_for(name), function),
        ) {
            Err(e) => Err(e),
            Ok(patched) => Ok(n_table_text(patched, table)),
        },
    }
}

/// The n-transform function of the other forms: the one with a prefixed literal as its
/// fallback, else the older flattened one.
pub open spec fn n_function(body: Seq<char>) -> Result<(Seq<char>, bool), ExtractError> {
    first_or_second(
        fancy_search(n_transform_pattern(), body),
        PatternId::NTransform,
        fancy_search(n_transform_tce_pattern(), body),
        PatternId::NTransformTce,
    )
}

/// Finds the n-transform function of the other forms.
pub fn find_n_function(body: &str) -> (r: Result<(String, bool), ExtractError>)
    ensures
        result_text(r) == n_function(body@),
{
    let pattern = flagged("s", N_TRANSFORM_REGEXP);
    match first_choice(search_backtracking(pattern.as_str(), body), PatternId::NTransform)? {
        Some(function) => Ok((function, false)),
        None => {
            let pattern = flagged("s", N_TRANSFORM_TCE_REGEXP);
            let function = second_choice(
                search_backtracking(pattern.as_str(), body),
                PatternId::NTransformTce,
            )?;
            Ok((function, true))
        },
    }
}

/// The parameter of `function`: group 1 of the search for a function head.
pub open spec fn parameter_of(head: SearchText) -> Result<Seq<char>, ExtractError> {
    match head.required(PatternId::ForParamMatching) {
        Err(e) => Err(e),
        Ok(found) => group_of(found, GroupIndex::Second, PatternId::ForParamMatching),
    }
}

/// Reads the parameter's name out of a search for a function head.
pub fn parameter_stage(head: Search) -> (r: Result<String, ExtractError>)
    ensures
        result_text(r) == parameter_of(head@),
{
    let found = head.required(PatternId::ForParamMatching)?;
    let parameter = found.group(GroupIndex::Second, PatternId::ForParamMatching)?;
    Ok(String::from_str(parameter))
}

/// The cleaned function that a rewrite yields, or the failure of its pattern.
pub open spec fn cleaned_of(rewritten: Option<Seq<char>>) -> Result<Seq<char>, ExtractError> {
    match rewritten {
        None => Err(ExtractError::PatternCompileError { pattern: PatternId::CleanedFunction }),
        Some(cleaned) => Ok(cleaned),
    }
}

/// Takes the cleaned function out of a rewrite.
pub fn cleaned_stage(rewritten: Option<String>) -> (r: Result<String, ExtractError>)
    ensures
        result_text(r) == cleaned_of(rewritten.deep_view()),
{
    match rewritten {
        None => Err(ExtractError::PatternCompileError { pattern: PatternId::CleanedFunction }),
        Some(cleaned) => Ok(cleaned),
    }
}

/// `function` without any early return of its own parameter.
pub open spec fn cleaned_function(function: Seq<char>) -> Result<Seq<char>, ExtractError> {
    match parameter_of(std_search(FOR_PARAM_MATCHING@, function)) {
        Err(e) => Err(e),
        Ok(parameter) => cleaned_of(
            std_rewrite(cleaned_function_text(parameter), function, Seq::empty()),
        ),
    }
}

/// Removes from `function` every early return of its own parameter.
pub fn clean_function(function: &str) -> (r: Result<String, ExtractError>)
    ensures
        result_text(r) == cleaned_function(function@),
{
    let parameter = parameter_stage(search(FOR_PARAM_MATCHING, function))?;
    let pattern = cleaned_function_pattern(parameter.as_str());
    let empty = String::new();
    cleaned_stage(rewrite(pattern.as_str(), function, empty.as_str()))
}

/// The n-transform script of the forms that do not work through the constant table.
pub open spec fn n_plain_form(body: Seq<char>) -> Result<Seq<char>, ExtractError> {
    match n_function(body) {
        Err(e) => Err(e),
        Ok((function, is_tce)) => match cleaned_function(function) {
            Err(e) => Err(e),
            Ok(cleaned) => match globals_for(body, is_tce) {
                Err(e) => Err(e),
                Ok(globals) => Ok(n_plain_text(globals, cleaned)),
            },
        },
    }
}

/// The n-transform script of `body`, given the constant table's name and declaration.
pub open spec fn n_transform_script(
    body: Seq<char>,
    name: Seq<char>,
    table: Seq<char>,
) -> Result<Seq<char>, ExtractError> {
    match fancy_search(n_function_pattern(), body).optional(PatternId::TceNFunction) {
        Err(e) => Err(e),
        Ok(Some(found)) => n_table_form(found, name, table),
        Ok(None) => n_plain_form(body),
    }
}

/// Extracts the n-transform function of `body` as a script that binds it to
/// `DisTubeNTransformFunc`. `name` and `code` are the constant table's name and
/// declaration.
///
/// The form that works through the constant table is tried first; its early return on the
/// table's sentinel is taken out and the table's declaration put behind it. Else the
/// function is the one with a prefixed literal as its fallback or the older flattened one,
/// cleaned of any early return of its parameter, with the globals before it that the
/// flattened one may need.
pub fn extract_n_transform_func(body: &str, name: &str, code: &str) -> (r: Result<
    String,
    ExtractError,
>)
    ensures
        result_text(r) == n_transform_script(body@, name@, code@),
{
    let n_pattern = flagged("s", TCE_N_FUNCTION_REGEXP);
    let found = search_backtracking(n_pattern.as_str(), body).optional(PatternId::TceNFunction)?;
    if let Some(found) = found {
        let function = found.group(GroupIndex::First, PatternId::TceNFunction)?;
        let escaped = escape(name);
        let guard_pattern = short_circuit_pattern(escaped.as_str());
        let guard = search(guard_pattern.as_str(), function);
        let patched = strip_short_circuit(function, guard)?;
        return Ok(n_table_script(patched.as_str(), code));
    }
    let (function, is_tce) = find_n_function(body)?;
    let cleaned = clean_function(function.as_str())?;
    let globals = find_globals(body, is_tce)?;
    Ok(n_plain_script(globals.as_str(), cleaned.as_str()))
}

} // verus!
